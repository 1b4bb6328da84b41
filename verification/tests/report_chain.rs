use erreport::Cause;
use erreport::Report;
use erreport::TagPolicy;
use erreport::TerminalError;

fn terminal(display: &str, debug: &str) -> Cause {
    Cause::Terminal(TerminalError { display: display.to_string(), debug: debug.to_string() })
}

fn frame(name: &str, version: &str, file: &str, line: u32, err: Cause) -> Report {
    Report {
        pkg_name: name.to_string(),
        pkg_version: version.to_string(),
        file: file.to_string(),
        line,
        err,
    }
}

#[test]
fn single_frame_terse_render() {
    let r = frame("pkg", "1.0", "src/lib.rs", 56, terminal("boom", "Boom"));
    assert_eq!(r.to_string(false, 0), "{pkg@1.0} src/lib.rs:56 -> boom");
}

#[test]
fn same_component_single_tag() {
    let inner = frame("A", "v", "f2", 2, terminal("x", "X"));
    let outer = frame("A", "v", "f1", 1, Cause::Frame(Box::new(inner)));
    let rendered = outer.to_string(false, 0);
    assert_eq!(rendered, "{A@v} f1:1 -> f2:2 -> x");
    assert_eq!(rendered.matches('{').count(), 1);
}

#[test]
fn cross_component_tags() {
    let inner = frame("B", "v2", "f2", 2, terminal("y", "Y"));
    let outer = frame("A", "v1", "f1", 1, Cause::Frame(Box::new(inner)));
    assert_eq!(outer.to_string(false, 0), "{A@v1} f1:1 -> {B@v2} f2:2 -> y");
}

#[test]
fn version_change_alone_is_a_transition() {
    let inner = frame("A", "v2", "f2", 2, terminal("y", "Y"));
    let outer = frame("A", "v1", "f1", 1, Cause::Frame(Box::new(inner)));
    assert_eq!(outer.to_string(false, 0), "{A@v1} f1:1 -> {A@v2} f2:2 -> y");
}

#[test]
fn outermost_only_policy_tags_once() {
    let inner = frame("B", "v2", "f2", 2, terminal("y", "Y"));
    let outer = frame("A", "v1", "f1", 1, Cause::Frame(Box::new(inner)));
    assert_eq!(outer.render(false, TagPolicy::OutermostOnly), "{A@v1} f1:1 -> f2:2 -> y");
}

#[test]
fn transition_policy_through_render() {
    let inner = frame("B", "v2", "f2", 2, terminal("y", "Y"));
    let outer = frame("A", "v1", "f1", 1, Cause::Frame(Box::new(inner)));
    assert_eq!(
        outer.render(false, TagPolicy::OnTransition),
        "{A@v1} f1:1 -> {B@v2} f2:2 -> y"
    );
}

#[test]
fn success_passthrough() {
    let res: Result<i32, Cause> = Ok(5);
    match Report::wrap(res, "A".to_string(), "v".to_string(), "f".to_string(), 1) {
        Ok(v) => assert_eq!(v, 5),
        Err(_) => panic!("a success value must pass through unchanged"),
    }
}

#[test]
fn wrap_failure_records_site() {
    let res: Result<i32, Cause> = Err(terminal("boom", "Boom"));
    match Report::wrap(res, "A".to_string(), "0.3".to_string(), "src/a.rs".to_string(), 42) {
        Ok(_) => panic!("a failure must be wrapped"),
        Err(rep) => {
            assert_eq!(rep.pkg_name, "A");
            assert_eq!(rep.pkg_version, "0.3");
            assert_eq!(rep.file, "src/a.rs");
            assert_eq!(rep.line, 42);
            assert_eq!(rep.to_string(false, 0), "{A@0.3} src/a.rs:42 -> boom");
        },
    }
}

#[test]
fn root_cause_skips_all_frames() {
    let mut chain = frame("A", "v", "f0", 0, terminal("root", "Root"));
    for i in 1..6u32 {
        chain = frame("A", "v", "f", i, Cause::Frame(Box::new(chain)));
    }
    let t = chain.source().expect("a chain always has a root cause");
    assert_eq!(t.display, "root");
    assert_eq!(t.debug, "Root");
}

#[test]
fn root_cause_of_single_frame() {
    let r = frame("A", "v", "f", 1, terminal("root", "Root"));
    let t = r.source().expect("a chain always has a root cause");
    assert_eq!(t.display, "root");
}

#[test]
fn arrow_count_matches_wrap_count() {
    let mut chain = frame("A", "v", "f1", 1, terminal("root", "Root"));
    assert_eq!(chain.to_string(false, 0).matches("->").count(), 1);
    for i in 2..5u32 {
        chain = frame("A", "v", "f", i, Cause::Frame(Box::new(chain)));
        assert_eq!(chain.to_string(false, 0).matches("->").count(), i as usize);
    }
}

#[test]
fn verbose_mode_uses_debug_form() {
    let r = frame("A", "v", "f", 1, terminal("io failure", "Kind { code: 5 }"));
    assert_eq!(r.to_string(true, 0), "{A@v} f:1 -> Kind { code: 5 }");
    assert_eq!(r.to_string(false, 0), "{A@v} f:1 -> io failure");
}

#[test]
fn verbose_mode_carries_through_transitions() {
    let inner = frame("B", "w", "f2", 2, terminal("io failure", "Kind { code: 5 }"));
    let outer = frame("A", "v", "f1", 1, Cause::Frame(Box::new(inner)));
    assert_eq!(outer.to_string(true, 0), "{A@v} f1:1 -> {B@w} f2:2 -> Kind { code: 5 }");
}

#[test]
fn traversals_do_not_mutate() {
    let inner = frame("B", "v2", "f2", 2, terminal("y", "Y"));
    let outer = frame("A", "v1", "f1", 1, Cause::Frame(Box::new(inner)));
    let first = outer.to_string(true, 0);
    let second = outer.to_string(true, 0);
    assert_eq!(first, second);
    let c1 = outer.source().expect("a chain always has a root cause").display.clone();
    let c2 = outer.source().expect("a chain always has a root cause").display.clone();
    assert_eq!(c1, c2);
}

#[test]
fn nonzero_index_omits_the_tag() {
    let r = frame("A", "v", "f", 1, terminal("boom", "Boom"));
    assert_eq!(r.to_string(false, 7), "f:1 -> boom");
}

#[test]
fn line_number_edges() {
    let low = frame("A", "v", "f", 0, terminal("e", "E"));
    assert_eq!(low.to_string(false, 0), "{A@v} f:0 -> e");
    let high = frame("A", "v", "f", u32::MAX, terminal("e", "E"));
    assert_eq!(high.to_string(false, 0), "{A@v} f:4294967295 -> e");
}

#[test]
fn multi_digit_line_number() {
    let r = frame("A", "v", "f", 632, terminal("e", "E"));
    assert_eq!(r.to_string(false, 0), "{A@v} f:632 -> e");
}
