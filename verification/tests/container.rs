use status::{
    AdhocContext, Cause, Context, Failure, Kind, NoContext, Render, ResultStatusExt, Source,
    Status, Unkind,
};

#[derive(Copy, Clone, Debug, PartialEq)]
enum ErrorKind {
    Read,
    Parse,
}

impl Render for ErrorKind {
    fn text(&self) -> vstd::seq::Seq<char> {
        unreachable!("read in proofs only")
    }

    fn render(&self) -> String {
        match self {
            ErrorKind::Read => "Failed to read file".to_string(),
            ErrorKind::Parse => "Failed to parse".to_string(),
        }
    }
}

#[derive(Default, Clone, Debug, PartialEq)]
struct Attempts {
    made: Option<u32>,
    path: Option<&'static str>,
}

impl Render for Attempts {
    fn text(&self) -> vstd::seq::Seq<char> {
        unreachable!("read in proofs only")
    }

    fn render(&self) -> String {
        let mut out = String::new();
        if let Some(made) = self.made {
            out.push_str(&format!("attempts made: {}", made));
        }
        if let Some(path) = self.path {
            out.push_str(&format!("path: {}", path));
        }
        out
    }
}

impl Context for Attempts {
    fn empty(&self) -> bool {
        unreachable!("read in proofs only")
    }

    fn default_is_empty(_context: Self) {
        unreachable!("read in proofs only")
    }

    fn update(self, replacements: Self) -> Self {
        Attempts { made: replacements.made.or(self.made), path: replacements.path.or(self.path) }
    }

    fn is_empty(&self) -> bool {
        self.made.is_none() && self.path.is_none()
    }
}

fn cause(message: &str) -> Cause {
    Cause::new(message.to_string())
}

#[test]
fn new_status_has_its_kind_and_an_empty_context() {
    for kind in [ErrorKind::Read, ErrorKind::Parse] {
        let status: Status<ErrorKind, Attempts> = Status::new(kind);
        assert_eq!(status.kind(), kind);
        assert!(status.context().is_empty());
        assert_eq!(*status.context(), Attempts::default());
        assert!(status.sources().next().is_none());
        assert!(status.root_source().is_none());
    }
    let adhoc: Status = Status::new("Failed to read file");
    assert!(adhoc.context().is_empty());
    assert_eq!(adhoc.kind().render(), "Failed to read file");
}

#[test]
fn new_status_converts_a_label_into_the_adhoc_kind() {
    let status: Status<Unkind, NoContext> = Status::new("permission denied");
    assert_eq!(status.kind().render(), "permission denied");
    assert_eq!(Unkind::from("permission denied").render(), "permission denied");
}

#[test]
fn public_cause_is_first_on_the_public_chain() {
    let status = Status::<ErrorKind, NoContext>::new(ErrorKind::Read).with_source(cause("disk gone"));
    let mut chain = status.sources();
    let first = chain.next().unwrap();
    assert_eq!(first.render(), "disk gone");
    assert_eq!(first.message(), "disk gone");
    assert!(chain.next().is_none());
}

#[test]
fn private_cause_is_hidden_from_the_public_chain() {
    let status =
        Status::<ErrorKind, NoContext>::new(ErrorKind::Read).with_internal(cause("disk gone"));
    assert!(status.sources().next().is_none());
    assert!(status.root_source().is_none());
    assert!(status.source().is_none());
    let internal = status.into_internal();
    assert_eq!(internal.sources().next().unwrap().render(), "disk gone");
    assert_eq!(internal.root_source().unwrap().render(), "disk gone");
    assert_eq!(internal.source().unwrap().render(), "disk gone");
}

#[test]
fn public_cause_shows_in_the_internal_view_too() {
    let internal = Status::<ErrorKind, NoContext>::new(ErrorKind::Read)
        .with_source(cause("disk gone"))
        .into_internal();
    assert_eq!(internal.sources().next().unwrap().render(), "disk gone");
}

#[test]
fn second_cause_replaces_the_first() {
    let status = Status::<ErrorKind, NoContext>::new(ErrorKind::Read)
        .with_source(cause("first"))
        .with_source(cause("second"));
    let shown: Vec<String> = status.sources().collect().iter().map(|c| c.render()).collect();
    assert_eq!(shown, vec!["second".to_string()]);
}

#[test]
fn private_cause_replaces_a_public_one() {
    let status = Status::<ErrorKind, NoContext>::new(ErrorKind::Read)
        .with_source(cause("first"))
        .with_internal(cause("second"));
    assert!(status.sources().next().is_none());
    let internal = status.into_internal();
    let shown: Vec<String> = internal.sources().collect().iter().map(|c| c.render()).collect();
    assert_eq!(shown, vec!["second".to_string()]);
}

#[test]
fn public_cause_replaces_a_private_one() {
    let status = Status::<ErrorKind, NoContext>::new(ErrorKind::Read)
        .with_internal(cause("first"))
        .with_source(cause("second"));
    let shown: Vec<String> = status.sources().collect().iter().map(|c| c.render()).collect();
    assert_eq!(shown, vec!["second".to_string()]);
}

#[test]
fn status_shows_kind_only_when_context_is_empty() {
    let status =
        Status::<ErrorKind, Attempts>::new(ErrorKind::Parse).with_source(cause("bad byte"));
    assert_eq!(status.render(), "Failed to parse\n");
}

#[test]
fn status_shows_context_after_a_blank_line() {
    let status = Status::<ErrorKind, Attempts>::new(ErrorKind::Parse)
        .context_with(|c| c.update(Attempts { made: Some(3), path: None }));
    assert_eq!(status.render(), "Failed to parse\n\nattempts made: 3");
}

#[test]
fn adhoc_status_shows_label_and_entries() {
    let status: Status = Status::new("Failed to read file");
    assert_eq!(status.render(), "Failed to read file\n");
    let status = status.context_with(|c| c.insert("Expected value", 5));
    assert_eq!(status.render(), "Failed to read file\n\nExpected value: 5\n");
}

#[test]
fn internal_view_shows_what_the_status_shows() {
    let plain = Status::<ErrorKind, Attempts>::new(ErrorKind::Read)
        .with_internal(cause("disk gone"))
        .context_with(|c| c.update(Attempts { made: None, path: Some("/tmp/x") }));
    let shown = plain.render();
    assert_eq!(shown, "Failed to read file\n\npath: /tmp/x");
    assert_eq!(plain.into_internal().render(), shown);
    let bare = Status::<ErrorKind, NoContext>::new(ErrorKind::Read);
    let shown = bare.render();
    assert_eq!(bare.into_internal().render(), shown);
}

#[test]
fn context_with_keeps_kind_and_cause() {
    let status = Status::<ErrorKind, Attempts>::new(ErrorKind::Read)
        .with_source(cause("disk gone"))
        .context_with(|c| c.update(Attempts { made: Some(1), path: None }))
        .context_with(|c| c.update(Attempts { made: None, path: Some("a.txt") }))
        .context_with(|c| c.update(Attempts { made: Some(2), path: None }));
    assert_eq!(status.kind(), ErrorKind::Read);
    assert_eq!(*status.context(), Attempts { made: Some(2), path: Some("a.txt") });
    assert_eq!(status.sources().next().unwrap().render(), "disk gone");
}

#[test]
fn context_is_reached_through_the_status() {
    let mut status = Status::<ErrorKind, Attempts>::new(ErrorKind::Read);
    assert!(status.is_empty());
    assert_eq!(status.made, None);
    status.made = Some(7);
    assert_eq!(status.context().made, Some(7));
    assert!(!status.is_empty());
    assert_eq!(status.kind(), ErrorKind::Read);
}

#[test]
fn into_err_wraps_the_status() {
    let result: Result<u8, Status<ErrorKind, NoContext>> =
        Status::<ErrorKind, NoContext>::new(ErrorKind::Parse).with_source(cause("bad byte")).into_err();
    let status = result.unwrap_err();
    assert_eq!(status.kind(), ErrorKind::Parse);
    assert_eq!(status.sources().next().unwrap().render(), "bad byte");
}

#[test]
fn kind_makes_a_bare_status() {
    let status: Status<ErrorKind, Attempts> = ErrorKind::Read.into_status();
    assert_eq!(status.kind(), ErrorKind::Read);
    assert!(status.context().is_empty());
    assert!(status.sources().next().is_none());
    let result: Result<(), Status<ErrorKind, Attempts>> = ErrorKind::Parse.into_err();
    let status = result.unwrap_err();
    assert_eq!(status.kind(), ErrorKind::Parse);
    assert!(status.context().is_empty());
    assert!(status.into_internal().sources().next().is_none());
}

#[test]
fn result_extension_touches_errors_only() {
    let ok: Result<u8, Status<ErrorKind, Attempts>> = Ok(3);
    let ok = ok.context_with(|c| c.update(Attempts { made: Some(1), path: None }));
    assert_eq!(ok.unwrap(), 3);
    let err: Result<u8, Status<ErrorKind, Attempts>> =
        Err(Status::<ErrorKind, Attempts>::new(ErrorKind::Read).with_source(cause("disk gone")));
    let err = err.context_with(|c| c.update(Attempts { made: Some(1), path: None }));
    let status = err.unwrap_err();
    assert_eq!(status.kind(), ErrorKind::Read);
    assert_eq!(status.context().made, Some(1));
    assert_eq!(status.sources().next().unwrap().render(), "disk gone");
}

#[test]
fn source_gives_its_cause_by_visibility() {
    let public = Source::Public(cause("seen"));
    assert_eq!(public.public().unwrap().render(), "seen");
    assert_eq!(public.any().unwrap().render(), "seen");
    let private = Source::Private(cause("kept"));
    assert!(private.public().is_none());
    assert_eq!(private.any().unwrap().render(), "kept");
    let empty = Source::Empty;
    assert!(empty.public().is_none());
    assert!(empty.any().is_none());
}

#[test]
fn read_error_with_internal_io_error() {
    let io_error = std::io::Error::new(std::io::ErrorKind::NotFound, "No such file or directory");
    let status = Status::<ErrorKind, AdhocContext>::new(ErrorKind::Read)
        .with_internal(Cause::new(io_error.to_string()));
    assert!(status.sources().next().is_none());
    assert_eq!(status.render(), "Failed to read file\n");
    assert!(!status.render().contains("No such file"));
    let internal = status.into_internal();
    assert_eq!(internal.sources().next().unwrap().render(), io_error.to_string());
    assert_eq!(internal.render(), "Failed to read file\n");
}

#[test]
fn status_as_the_cause_of_a_status() {
    let inner = Status::<ErrorKind, NoContext>::new(ErrorKind::Parse)
        .with_source(cause("bad byte"))
        .with_internal(cause("offset 12"));
    let outer = Status::<ErrorKind, NoContext>::new(ErrorKind::Read).with_source(inner);
    let shown: Vec<String> = outer.sources().collect().iter().map(|c| c.render()).collect();
    assert_eq!(shown, vec!["Failed to parse\n".to_string()]);

    let inner = Status::<ErrorKind, NoContext>::new(ErrorKind::Parse).with_source(cause("bad byte"));
    let outer = Status::<ErrorKind, NoContext>::new(ErrorKind::Read).with_source(inner);
    let shown: Vec<String> = outer.sources().collect().iter().map(|c| c.render()).collect();
    assert_eq!(shown, vec!["Failed to parse\n".to_string(), "bad byte".to_string()]);
    assert_eq!(outer.root_source().unwrap().render(), "bad byte");

    let inner = Status::<ErrorKind, NoContext>::new(ErrorKind::Parse)
        .with_internal(cause("offset 12"))
        .into_internal();
    let outer = Status::<ErrorKind, NoContext>::new(ErrorKind::Read).with_source(inner);
    let shown: Vec<String> = outer.sources().collect().iter().map(|c| c.render()).collect();
    assert_eq!(shown, vec!["Failed to parse\n".to_string(), "offset 12".to_string()]);
}
