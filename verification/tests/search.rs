use cosmic_panel_button::{begin, proceed, resolve, Action, Candidate, Descriptor, ResolveError};

const GOOD: &str = "[Desktop Entry]\nName=Good\nExec=good\n";
const OTHER: &str = "[Desktop Entry]\nName=Other\nExec=other\nIcon=other\n";
const NAMELESS: &str = "[Desktop Entry]\nExec=x\n";
const BROKEN: &str = "=\n";

fn candidates(contents: &[Option<&str>]) -> Vec<Candidate> {
    let mut v = Vec::new();
    for (i, c) in contents.iter().enumerate() {
        v.push(Candidate { path: format!("/dir{}/app.desktop", i), contents: c.map(String::from) });
    }
    v
}

fn follow(list: &Vec<Candidate>) -> (Result<Descriptor, ResolveError>, Vec<usize>) {
    let mut read = Vec::new();
    let mut action = begin(list.len());
    loop {
        match action {
            Action::Finish(outcome) => return (outcome, read),
            Action::Read(index) => {
                read.push(index);
                let c = &list[index];
                action = proceed(list.len(), index, &c.path, c.contents.as_deref());
            }
        }
    }
}

fn same(a: &Result<Descriptor, ResolveError>, b: &Result<Descriptor, ResolveError>) -> bool {
    match (a, b) {
        (Ok(x), Ok(y)) => x.name() == y.name() && x.icon() == y.icon() && x.command() == y.command(),
        (Err(x), Err(y)) => x == y,
        _ => false,
    }
}

#[test]
fn begin_without_directories() {
    assert!(matches!(begin(0), Action::Finish(Err(ResolveError::NotFound))));
}

#[test]
fn begin_reads_the_first_directory() {
    assert!(matches!(begin(1), Action::Read(0)));
    assert!(matches!(begin(7), Action::Read(0)));
}

#[test]
fn proceed_goes_to_the_next_directory() {
    assert!(matches!(proceed(3, 0, "/a/app.desktop", None), Action::Read(1)));
    assert!(matches!(proceed(3, 1, "/b/app.desktop", Some(BROKEN)), Action::Read(2)));
}

#[test]
fn proceed_behind_the_last_directory() {
    assert!(matches!(
        proceed(3, 2, "/c/app.desktop", None),
        Action::Finish(Err(ResolveError::NotFound))
    ));
    assert!(matches!(
        proceed(1, 0, "/c/app.desktop", Some(BROKEN)),
        Action::Finish(Err(ResolveError::NotFound))
    ));
    assert!(matches!(
        proceed(0, usize::MAX, "/c/app.desktop", None),
        Action::Finish(Err(ResolveError::NotFound))
    ));
}

#[test]
fn proceed_stops_at_a_file_that_parses() {
    match proceed(3, 0, "/a/app.desktop", Some(GOOD)) {
        Action::Finish(Ok(d)) => {
            assert_eq!(d.name(), "Good");
            assert_eq!(d.command(), "good");
        }
        _ => panic!("the search did not end with a descriptor"),
    }
    assert!(matches!(
        proceed(3, 0, "/a/app.desktop", Some(NAMELESS)),
        Action::Finish(Err(ResolveError::MissingName))
    ));
}

#[test]
fn search_reads_no_further_than_the_first_match() {
    let list = candidates(&[None, Some(BROKEN), Some(GOOD), Some(OTHER), None]);
    let (outcome, read) = follow(&list);
    assert_eq!(outcome.unwrap().name(), "Good");
    assert_eq!(read, vec![0, 1, 2]);
}

#[test]
fn search_reads_every_directory_when_nothing_is_found() {
    let list = candidates(&[None, Some(BROKEN), None]);
    let (outcome, read) = follow(&list);
    assert_eq!(outcome.err(), Some(ResolveError::NotFound));
    assert_eq!(read, vec![0, 1, 2]);
}

#[test]
fn search_agrees_with_resolve() {
    let lists = [
        candidates(&[]),
        candidates(&[None]),
        candidates(&[Some(GOOD)]),
        candidates(&[Some(OTHER), Some(GOOD)]),
        candidates(&[None, Some(NAMELESS), Some(GOOD)]),
        candidates(&[Some(BROKEN), None, Some(OTHER), Some(NAMELESS)]),
        candidates(&[Some(BROKEN), None, Some(BROKEN)]),
        candidates(&[Some("[Desktop Entry]\nName=x\n"), Some(GOOD)]),
        candidates(&[Some("[Desktop Entry]\nName=\n"), Some(GOOD)]),
    ];
    for list in lists.iter() {
        let (outcome, _) = follow(list);
        assert!(same(&outcome, &resolve(list)));
    }
}
