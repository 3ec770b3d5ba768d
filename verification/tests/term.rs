use status::{AdhocContext, Cause, NoContext, Status, TerminatingStatus, Unkind};

#[test]
fn report_of_an_error_without_cause_is_its_line() {
    let wrapped = TerminatingStatus::from(Cause::new("Died".to_string()));
    assert_eq!(wrapped.report(), "Died\n");
    let status: Status = Status::new("Died");
    let wrapped: TerminatingStatus = TerminatingStatus::from(status);
    assert_eq!(wrapped.report(), "Died\n\n");
}

#[test]
fn report_of_nested_statuses_names_the_inner_once() {
    let inner = Status::<Unkind, NoContext>::new("Failed to parse");
    let outer = Status::<Unkind, NoContext>::new("Failed to read file").with_source(inner);
    let out = TerminatingStatus::from(outer).report();
    assert_eq!(out, "Failed to read file\n\n\nCaused by: Failed to parse\n\n");
    assert!(out.starts_with("Failed to read file\n"));
    assert_eq!(out.matches("Caused by: ").count(), 1);
}

#[test]
fn report_walks_the_whole_trail() {
    let deepest = Cause::new("cable cut".to_string());
    let middle = Cause::new("disk gone".to_string()).with_source(deepest);
    let top = Cause::new("read failed".to_string()).with_source(middle);
    let out = TerminatingStatus::from(top).report();
    assert_eq!(out, "read failed\n\nCaused by: disk gone\n\nCaused by: cable cut\n");
}

#[test]
fn report_leaves_private_causes_out_unless_asked() {
    let status = Status::<Unkind, AdhocContext>::new("Failed to read file")
        .with_internal(Cause::new("No such file".to_string()))
        .context_with(|c| c.insert("path", "a.txt"));
    let shown = "Failed to read file\n\npath: a.txt\n";
    let public = Status::<Unkind, AdhocContext>::new("Failed to read file")
        .with_internal(Cause::new("No such file".to_string()))
        .context_with(|c| c.insert("path", "a.txt"));
    assert_eq!(TerminatingStatus::from(public).report(), format!("{}\n", shown));
    assert_eq!(
        TerminatingStatus::from(status.into_internal()).report(),
        format!("{}\n\nCaused by: No such file\n", shown)
    );
}
