use zola_posts::{
    detail_url, file_name, frame_file, to_header, transform_body, Action, Author, Driver, Event, Post,
    Stage, Tag, Timestamp, User,
};

const BASE: &str = "https://blog.example/posts/";

fn tag(id: i32, name: &str) -> Tag {
    Tag { id, tag: name.to_string(), description: format!("about {}", name) }
}

fn post(id: i32, title: &str, content: &str) -> Post {
    Post {
        id,
        author: Author {
            user: User { first_name: "Jane".to_string(), last_name: "Doe".to_string() },
            photo: "jane.png".to_string(),
        },
        tags: vec![tag(1, "rust"), tag(2, "web"), tag(1, "rust")],
        title: title.to_string(),
        summary: format!("summary of {}", title),
        content: content.to_string(),
        published_date: Timestamp::from_unix(1_704_164_645, 0).unwrap(),
    }
}

fn expect_fetch(a: Action) -> String {
    match a {
        Action::FetchDetail(u) => u,
        other => panic!("expected a detail fetch, got {:?}", other),
    }
}

fn expect_write(a: Action) -> (String, zola_posts::PostHeader, String) {
    match a {
        Action::Write { file_name, header, body } => (file_name, header, body),
        other => panic!("expected a write, got {:?}", other),
    }
}

#[test]
fn shell_fence_becomes_bash() {
    let src = "Intro\n```shell\necho hi\n```\nOutro";
    assert_eq!(transform_body(src), "Intro\n```bash\necho hi\n```\nOutro");
}

#[test]
fn every_shell_fence_is_rewritten() {
    let src = "```shell\na\n```\n```shell\nb\n```";
    assert_eq!(transform_body(src), "```bash\na\n```\n```bash\nb\n```");
}

#[test]
fn body_without_marker_is_unchanged() {
    let src = "plain ```rust\nfn main() {}\n``` and ```she";
    assert_eq!(transform_body(src), src);
    assert_eq!(transform_body(""), "");
}

#[test]
fn marker_after_extra_backticks() {
    assert_eq!(transform_body("``````shell"), "``````bash");
}

#[test]
fn non_ascii_text_is_kept() {
    let src = "café ```shell\nls ü\n``` ☕";
    assert_eq!(transform_body(src), "café ```bash\nls ü\n``` ☕");
}

#[test]
fn transform_twice_equals_once() {
    for src in ["```shell x ```shell", "````shellshell", "```bash", "a```shel```shell"] {
        let once = transform_body(src);
        assert_eq!(transform_body(&once), once);
    }
}

#[test]
fn shell_and_bash_bodies_collide() {
    assert_eq!(transform_body("```shell\nls\n```"), transform_body("```bash\nls\n```"));
    assert_ne!("```shell\nls\n```", "```bash\nls\n```");
}

#[test]
fn header_fields() {
    let p = post(3, "Hello", "body");
    let h = to_header(&p);
    assert_eq!(h.title, "Hello");
    assert_eq!(h.description, "summary of Hello");
    assert_eq!(h.date, "2024-01-02T03:04:05+00:00");
    assert_eq!(h.authors, vec!["Jane Doe".to_string()]);
    assert_eq!(h.taxonomies.tags, vec!["rust".to_string(), "web".to_string(), "rust".to_string()]);
    assert_eq!(h.extra.author, "Jane Doe");
    assert_eq!(h.extra.summary, "summary of Hello");
}

#[test]
fn header_is_deterministic() {
    let p = post(3, "Hello", "body");
    let a = to_header(&p);
    let b = to_header(&p);
    assert_eq!(a.title, b.title);
    assert_eq!(a.date, b.date);
    assert_eq!(a.authors, b.authors);
    assert_eq!(a.taxonomies.tags, b.taxonomies.tags);
    assert_eq!(a.extra.summary, b.extra.summary);
}

#[test]
fn header_date_with_fraction() {
    let mut p = post(3, "Hello", "body");
    p.published_date = Timestamp::from_unix(0, 500_000_000).unwrap();
    assert_eq!(to_header(&p).date, "1970-01-01T00:00:00.500+00:00");
}

#[test]
fn timestamp_out_of_range() {
    assert!(Timestamp::from_unix(i64::MAX, 0).is_none());
    assert!(Timestamp::from_unix(0, 2_000_000_000).is_none());
    let t = Timestamp::from_unix(-86_400, 7).unwrap();
    assert_eq!(t.secs(), -86_400);
    assert_eq!(t.nanos(), 7);
    assert_eq!(t.to_rfc3339(), "1969-12-31T00:00:00.000000007+00:00");
}

#[test]
fn detail_urls() {
    assert_eq!(detail_url(BASE, 42), "https://blog.example/posts/42");
    assert_eq!(detail_url(BASE, 0), "https://blog.example/posts/0");
    assert_eq!(detail_url(BASE, -7), "https://blog.example/posts/-7");
    assert_eq!(detail_url("", i32::MIN), "-2147483648");
    assert_eq!(detail_url("", i32::MAX), "2147483647");
}

#[test]
fn file_names_keep_title() {
    assert_eq!(file_name("Hello"), "Hello.md");
    assert_eq!(file_name("v1.2 notes"), "v1.2 notes.md");
    assert_eq!(file_name(""), ".md");
}

#[test]
fn framed_file() {
    assert_eq!(frame_file("title = \"x\"\n", "body"), "+++\ntitle = \"x\"\n+++\nbody");
    assert_eq!(frame_file("", ""), "+++\n+++\n");
}

#[test]
fn run_with_no_posts() {
    let mut d = Driver::new(BASE.to_string());
    match d.start() {
        Action::FetchList(u) => assert_eq!(u, BASE),
        other => panic!("unexpected {:?}", other),
    }
    assert!(matches!(d.on_event(Event::ListFetched(vec![])), Action::Finish));
    assert_eq!(d.stage, Stage::Done);
    assert!(matches!(d.on_event(Event::Written), Action::Finish));
}

#[test]
fn run_with_two_posts() {
    let mut d = Driver::new(BASE.to_string());
    let listed = vec![post(7, "First", ""), post(9, "Second", "")];
    let mut fetches = Vec::new();
    let mut writes = Vec::new();
    let mut a = d.on_event(Event::ListFetched(listed));
    loop {
        match a {
            Action::FetchDetail(u) => {
                let id = if u.ends_with('7') { 7 } else { 9 };
                fetches.push(u);
                a = d.on_event(Event::DetailFetched(post(id, "ignored", "text")));
            }
            Action::Write { file_name, .. } => {
                writes.push(file_name);
                a = d.on_event(Event::Written);
            }
            Action::Finish => break,
            other => panic!("unexpected {:?}", other),
        }
    }
    assert_eq!(fetches, vec![format!("{}7", BASE), format!("{}9", BASE)]);
    assert_eq!(writes, vec!["First.md".to_string(), "Second.md".to_string()]);
    assert_eq!(d.stage, Stage::Done);
}

#[test]
fn written_body_rewrites_shell_fence() {
    let mut d = Driver::new(BASE.to_string());
    expect_fetch(d.on_event(Event::ListFetched(vec![post(1, "Cmds", "")])));
    let content = "Run:\n```shell\nmake\n```\nDone.";
    let (name, header, body) =
        expect_write(d.on_event(Event::DetailFetched(post(1, "Cmds", content))));
    assert_eq!(name, "Cmds.md");
    assert_eq!(header.title, "Cmds");
    assert_eq!(body, "Run:\n```bash\nmake\n```\nDone.");
    assert!(matches!(d.on_event(Event::Written), Action::Finish));
}

#[test]
fn same_title_written_twice_in_order() {
    let mut d = Driver::new(BASE.to_string());
    let first = expect_fetch(d.on_event(Event::ListFetched(vec![post(1, "Same", ""), post(2, "Same", "")])));
    assert_eq!(first, format!("{}1", BASE));
    let (n1, _, b1) = expect_write(d.on_event(Event::DetailFetched(post(1, "Same", "one"))));
    let second = expect_fetch(d.on_event(Event::Written));
    assert_eq!(second, format!("{}2", BASE));
    let (n2, _, b2) = expect_write(d.on_event(Event::DetailFetched(post(2, "Same", "two"))));
    assert_eq!(n1, n2);
    assert_eq!((b1.as_str(), b2.as_str()), ("one", "two"));
    assert!(matches!(d.on_event(Event::Written), Action::Finish));
}

#[test]
fn failed_detail_fetch_aborts_run() {
    let mut d = Driver::new(BASE.to_string());
    let listed = vec![post(1, "A", ""), post(2, "B", ""), post(3, "C", "")];
    expect_fetch(d.on_event(Event::ListFetched(listed)));
    expect_write(d.on_event(Event::DetailFetched(post(1, "A", "a"))));
    expect_fetch(d.on_event(Event::Written));
    assert!(matches!(d.on_event(Event::Failed), Action::Abort));
    assert_eq!(d.stage, Stage::Failed);
    assert_eq!(d.next, 1);
    assert!(matches!(d.on_event(Event::DetailFetched(post(3, "C", "c"))), Action::Abort));
    assert!(matches!(d.on_event(Event::Written), Action::Abort));
}

#[test]
fn failed_list_fetch_aborts_run() {
    let mut d = Driver::new(BASE.to_string());
    assert!(matches!(d.on_event(Event::Failed), Action::Abort));
    assert_eq!(d.stage, Stage::Failed);
}

#[test]
fn out_of_order_event_aborts_run() {
    let mut d = Driver::new(BASE.to_string());
    assert!(matches!(d.on_event(Event::Written), Action::Abort));
    assert_eq!(d.stage, Stage::Failed);
}
