use supervisor_webui::log_request::{decimal_string, log_request_body};
use supervisor_webui::request_params::LogRequestParams;
use supervisor_webui::status::{network_error_state, state_or_network_error, ServerState};
use supervisor_webui::tags::strip_tags;
use supervisor_webui::text::chars_of;

#[test]
fn decimal_writing_matches_formatting() {
    for n in [0, 7, 10, 42, -1, -42, 1000, i32::MAX, i32::MIN, -2147483647, 99, -100] {
        assert_eq!(decimal_string(n), format!("{}", n));
    }
}

#[test]
fn log_request_without_process() {
    let p = LogRequestParams { offset: -1024, length: 0, process: String::new() };
    let expected = "<?xml version='1.0'?>\n        <methodCall>\n        <methodName>supervisor.readLog</methodName>\n        <params>\n        \n        <param>\n        <value><int>-1024</int></value>\n        </param>\n        <param>\n        <value><int>0</int></value>\n        </param>\n        </params>\n        </methodCall>";
    assert_eq!(log_request_body("readLog", &p), expected);
}

#[test]
fn log_request_with_process() {
    let p = LogRequestParams { offset: 0, length: 65536, process: "web".to_string() };
    let expected = "<?xml version='1.0'?>\n        <methodCall>\n        <methodName>supervisor.tailProcessStdoutLog</methodName>\n        <params>\n        <param><value><string>web</string></value></param>\n        <param>\n        <value><int>0</int></value>\n        </param>\n        <param>\n        <value><int>65536</int></value>\n        </param>\n        </params>\n        </methodCall>";
    assert_eq!(log_request_body("tailProcessStdoutLog", &p), expected);
}

#[test]
fn strip_removes_tags_and_one_following_line_feed() {
    assert_eq!(strip_tags("<a>x</a>\ny"), "xy");
    assert_eq!(strip_tags("<?xml version='1.0'?>\n<methodResponse>\nline one\nline two\n</methodResponse>"),
        "line one\nline two\n");
    assert_eq!(strip_tags("a<b>\n\nc"), "a\nc");
    assert_eq!(strip_tags("<<x>>"), ">");
    assert_eq!(strip_tags("1 < 2\n3 > 2"), "1 < 2\n3 > 2");
    assert_eq!(strip_tags("<"), "<");
    assert_eq!(strip_tags(""), "");
    assert_eq!(strip_tags("é<ü>ß"), "éß");
    assert_eq!(strip_tags("<a<b>c>"), "c>");
    assert_eq!(strip_tags("x<\n<b>\ny"), "x<\ny");
}

#[test]
fn strip_leaves_no_tag_and_is_idempotent() {
    for s in ["<a\n<b>\n>", "<a<b>\n>", "<<x>>", "a<<x>b>", "<\n<a>", "<x>\n\n<y>", "plain text"] {
        let once = strip_tags(s);
        assert_eq!(strip_tags(&once), once);
        let c = chars_of(&once);
        for (i, ch) in c.iter().enumerate() {
            if *ch == '<' {
                let stop = c[i + 1..].iter().position(|d| *d == '>' || *d == '\n');
                assert!(stop.map_or(true, |k| c[i + 1 + k] == '\n'));
            }
        }
    }
}

#[test]
fn text_without_brackets_is_kept() {
    assert_eq!(strip_tags("2024-01-01 INFO started\n"), "2024-01-01 INFO started\n");
}

#[test]
fn state_fallback() {
    let st = state_or_network_error(None);
    assert_eq!(st.statecode, -2);
    assert_eq!(st.statename, "NetWorkError");
    let st = state_or_network_error(Some(ServerState { statecode: 1, statename: "RUNNING".to_string() }));
    assert_eq!(st.statecode, 1);
    assert_eq!(st.statename, "RUNNING");
    assert_eq!(network_error_state().statecode, -2);
}
