use spout::{library_path, Linkage, Stage, Step, DEFAULT_LIBRARY, ENTRY_POINT};

/// What a host does for one construction: carries out each step the linkage
/// asks for, counts it, and hands the handle over at the end.
fn construct(linkage: &mut Linkage, steps: &mut Vec<Step>, handle: usize) -> Option<spout::Spout> {
    loop {
        let step = linkage.next();
        steps.push(step);
        linkage.complete(step);
        if step == Step::Enter {
            return linkage.acquire(handle);
        }
    }
}

fn count(steps: &[Step], step: Step) -> usize {
    steps.iter().filter(|&&s| s == step).count()
}

#[test]
fn a_new_linkage_has_loaded_nothing() {
    let linkage = Linkage::new();
    assert_eq!(linkage.stage(), Stage::Unloaded);
    assert_eq!(linkage.next(), Step::Load);
}

#[test]
fn the_first_construction_loads_resolves_and_enters() {
    let mut linkage = Linkage::new();
    let mut steps = Vec::new();
    let spout = construct(&mut linkage, &mut steps, 0x4000).unwrap();
    assert_eq!(steps, vec![Step::Load, Step::Resolve, Step::Enter]);
    assert_eq!(spout.handle(), 0x4000);
    assert!(spout.is_ready());
    assert_eq!(linkage.stage(), Stage::Resolved);
}

#[test]
fn a_second_construction_only_enters() {
    let mut linkage = Linkage::new();
    let mut steps = Vec::new();
    construct(&mut linkage, &mut steps, 0x4000).unwrap();
    steps.clear();
    let second = construct(&mut linkage, &mut steps, 0x4000).unwrap();
    assert_eq!(steps, vec![Step::Enter]);
    assert_eq!(second.handle(), 0x4000);
}

#[test]
fn many_constructions_load_and_resolve_once() {
    let mut linkage = Linkage::new();
    let mut steps = Vec::new();
    for _ in 0..25 {
        construct(&mut linkage, &mut steps, 0x4000).unwrap();
    }
    assert_eq!(count(&steps, Step::Load), 1);
    assert_eq!(count(&steps, Step::Resolve), 1);
    assert_eq!(count(&steps, Step::Enter), 25);
    assert_eq!(steps.len(), 27);
}

#[test]
fn stages_follow_the_completed_steps() {
    let mut linkage = Linkage::new();
    linkage.complete(Step::Load);
    assert_eq!(linkage.stage(), Stage::Loaded);
    assert_eq!(linkage.next(), Step::Resolve);
    linkage.complete(Step::Resolve);
    assert_eq!(linkage.stage(), Stage::Resolved);
    assert_eq!(linkage.next(), Step::Enter);
    linkage.complete(Step::Enter);
    assert_eq!(linkage.stage(), Stage::Resolved);
}

#[test]
fn a_step_that_was_not_asked_for_changes_nothing() {
    let mut linkage = Linkage::new();
    linkage.complete(Step::Resolve);
    assert_eq!(linkage.stage(), Stage::Unloaded);
    linkage.complete(Step::Enter);
    assert_eq!(linkage.stage(), Stage::Unloaded);
    linkage.complete(Step::Load);
    linkage.complete(Step::Load);
    assert_eq!(linkage.stage(), Stage::Loaded);
    linkage.complete(Step::Resolve);
    linkage.complete(Step::Load);
    linkage.complete(Step::Resolve);
    assert_eq!(linkage.stage(), Stage::Resolved);
}

#[test]
fn a_null_handle_gives_no_spout() {
    let mut linkage = Linkage::new();
    let mut steps = Vec::new();
    assert!(construct(&mut linkage, &mut steps, 0).is_none());
    assert_eq!(steps, vec![Step::Load, Step::Resolve, Step::Enter]);
}

#[test]
fn a_null_handle_does_not_undo_the_loading() {
    let mut linkage = Linkage::new();
    let mut steps = Vec::new();
    assert!(construct(&mut linkage, &mut steps, 0).is_none());
    assert_eq!(linkage.stage(), Stage::Resolved);
    steps.clear();
    let spout = construct(&mut linkage, &mut steps, 0x88).unwrap();
    assert_eq!(steps, vec![Step::Enter]);
    assert_eq!(spout.handle(), 0x88);
}

#[test]
fn no_spout_before_the_entry_point_is_resolved() {
    let mut linkage = Linkage::new();
    assert!(linkage.acquire(0x4000).is_none());
    linkage.complete(Step::Load);
    assert!(linkage.acquire(0x4000).is_none());
    linkage.complete(Step::Resolve);
    assert!(linkage.acquire(0x4000).is_some());
}

#[test]
fn the_largest_handle_is_accepted() {
    let mut linkage = Linkage::new();
    linkage.complete(Step::Load);
    linkage.complete(Step::Resolve);
    assert_eq!(linkage.acquire(usize::MAX).unwrap().handle(), usize::MAX);
    assert_eq!(linkage.acquire(1).unwrap().handle(), 1);
}

#[test]
fn library_path_falls_back_to_the_default() {
    assert_eq!(library_path(None), "SpoutLibrary.dll");
    assert_eq!(DEFAULT_LIBRARY, "SpoutLibrary.dll");
}

#[test]
fn library_path_prefers_the_configured_file() {
    assert_eq!(library_path(Some("C:/spout/SpoutLibrary.dll")), "C:/spout/SpoutLibrary.dll");
    assert_eq!(library_path(Some("")), "");
}

#[test]
fn entry_point_name() {
    assert_eq!(ENTRY_POINT, "GetSpout");
}
