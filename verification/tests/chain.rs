use status::{Cause, Chain, Failure, NoContext, Render, Status, Unkind};

fn chain_of(depth: usize) -> Option<Cause> {
    let mut cause: Option<Cause> = None;
    for level in (0..depth).rev() {
        let here = Cause::new(format!("level {}", level));
        cause = Some(match cause {
            Some(deeper) => here.with_source(deeper),
            None => here,
        });
    }
    cause
}

#[test]
fn chain_yields_one_cause_per_level_and_then_stops() {
    for depth in 0..6 {
        let start = chain_of(depth);
        let mut chain = Chain::new(start.as_ref());
        for level in 0..depth {
            let cause = chain.next().unwrap();
            assert_eq!(cause.render(), format!("level {}", level));
        }
        assert!(chain.next().is_none());
        assert!(chain.next().is_none());
        assert!(chain.next().is_none());
    }
}

#[test]
fn chain_collects_every_cause_in_order() {
    for depth in 0..6 {
        let start = chain_of(depth);
        let causes = Chain::new(start.as_ref()).collect();
        assert_eq!(causes.len(), depth);
        for (level, cause) in causes.iter().enumerate() {
            assert_eq!(cause.message(), format!("level {}", level));
        }
    }
}

#[test]
fn chain_ends_at_the_deepest_cause() {
    assert!(Chain::new(None).last().is_none());
    for depth in 1..6 {
        let start = chain_of(depth);
        let last = Chain::new(start.as_ref()).last().unwrap();
        assert_eq!(last.render(), format!("level {}", depth - 1));
        assert!(last.source().is_none());
    }
}

#[test]
fn root_source_is_the_deepest_public_cause() {
    let bare: Status<Unkind, NoContext> = Status::new("bare");
    assert!(bare.root_source().is_none());
    assert!(bare.into_internal().root_source().is_none());
    let status = Status::<Unkind, NoContext>::new("top").with_source(chain_of(4).unwrap());
    assert_eq!(status.root_source().unwrap().render(), "level 3");
    assert_eq!(status.sources().collect().len(), 4);
    let status = Status::<Unkind, NoContext>::new("top").with_internal(chain_of(4).unwrap());
    assert!(status.root_source().is_none());
    assert_eq!(status.sources().collect().len(), 0);
    let internal = status.into_internal();
    assert_eq!(internal.root_source().unwrap().render(), "level 3");
    assert_eq!(internal.sources().collect().len(), 4);
}

#[test]
fn cause_shows_its_message_and_declares_its_source() {
    let leaf = Cause::new("disk gone".to_string());
    assert_eq!(leaf.render(), "disk gone");
    assert_eq!(leaf.message(), "disk gone");
    assert!(leaf.source().is_none());
    let outer = Cause::new("read failed".to_string()).with_source(leaf);
    assert_eq!(outer.render(), "read failed");
    assert_eq!(outer.source().unwrap().render(), "disk gone");
    let replaced = outer.with_source(Cause::new("cable cut".to_string()));
    assert_eq!(replaced.render(), "read failed");
    assert_eq!(replaced.source().unwrap().render(), "cable cut");
    assert!(replaced.source().unwrap().source().is_none());
}

#[test]
fn cause_clone_holds_the_same_chain() {
    let cause = chain_of(3).unwrap();
    let copy = cause.clone();
    let shown: Vec<String> = Chain::new(Some(&copy)).collect().iter().map(|c| c.render()).collect();
    assert_eq!(shown, vec!["level 0", "level 1", "level 2"]);
    let shown: Vec<String> = Chain::new(Some(&cause)).collect().iter().map(|c| c.render()).collect();
    assert_eq!(shown, vec!["level 0", "level 1", "level 2"]);
}

#[test]
fn capture_takes_down_message_and_causes() {
    let status = Status::<Unkind, NoContext>::new("top").with_source(chain_of(2).unwrap());
    let captured = Cause::capture(&status);
    let shown: Vec<String> =
        Chain::new(Some(&captured)).collect().iter().map(|c| c.render()).collect();
    assert_eq!(shown, vec!["top\n", "level 0", "level 1"]);
    let hidden = Status::<Unkind, NoContext>::new("top").with_internal(chain_of(2).unwrap());
    let captured = Cause::capture(&hidden);
    assert_eq!(captured.render(), "top\n");
    assert!(captured.source().is_none());
    let captured = Cause::capture(&hidden.into_internal());
    assert_eq!(captured.source().unwrap().render(), "level 0");
}
