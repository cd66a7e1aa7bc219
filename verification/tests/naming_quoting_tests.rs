use winusb_installer::naming::pipe_name;
use winusb_installer::quoting::params_string;
use winusb_installer::quoting::quote_param;
use winusb_installer::quoting::quoted_param;
use winusb_installer::session::Server;

#[test]
fn endpoint_name_prepends_the_prefix_once() {
    let name = pipe_name("session-1").expect("plain id must be accepted");
    assert_eq!(name, "\\\\.\\pipe\\session-1");
}

#[test]
fn already_prefixed_id_is_rejected() {
    assert!(pipe_name("\\\\.\\pipe\\session-1").is_none());
    assert!(pipe_name("\\\\.anything").is_none());
}

#[test]
fn default_session_id_names_the_endpoint() {
    let server = Server::new();
    let name = server.get_pipe_name().expect("the default id must be accepted");
    assert_eq!(name, "\\\\.\\pipe\\winusb-driver-installer");
}

#[test]
fn configured_session_id_names_the_endpoint() {
    let mut server = Server::new();
    server.pipe_id(String::from("other"));
    assert_eq!(server.get_pipe_name().unwrap(), "\\\\.\\pipe\\other");
    server.pipe_id(String::from("\\\\.bad"));
    assert!(server.get_pipe_name().is_none());
}

#[test]
fn plain_arguments_pass_verbatim() {
    assert_eq!(quoted_param("plain-arg"), "plain-arg");
    assert_eq!(quoted_param("C:\\path\\to\\exe"), "C:\\path\\to\\exe");
}

#[test]
fn empty_argument_quotes_to_empty_pair() {
    assert_eq!(quoted_param(""), "\"\"");
}

#[test]
fn arguments_with_whitespace_or_quotes_are_quoted() {
    assert_eq!(quoted_param("two words"), "\"two words\"");
    assert_eq!(quoted_param("tab\there"), "\"tab\there\"");
    assert_eq!(quoted_param("say \"hi\""), "\"say \\\"hi\\\"\"");
}

#[test]
fn quoting_escapes_backslashes_and_quotes() {
    assert_eq!(quote_param("a\\b"), "\"a\\\\b\"");
    assert_eq!(quote_param("a\"b"), "\"a\\\"b\"");
    assert_eq!(quote_param("mixed \\ and \""), "\"mixed \\\\ and \\\"\"");
}

fn unquote(param: &str) -> Option<String> {
    // An independent unquoting routine: a quoted pair is unescaped,
    // anything else is taken verbatim.
    let chars: Vec<char> = param.chars().collect();
    if chars.len() >= 2 && chars[0] == '"' && chars[chars.len() - 1] == '"' {
        let inner = &chars[1..chars.len() - 1];
        let mut out = String::new();
        let mut i = 0;
        while i < inner.len() {
            if inner[i] == '\\' {
                if i + 1 < inner.len() && (inner[i + 1] == '\\' || inner[i + 1] == '"') {
                    out.push(inner[i + 1]);
                    i += 2;
                } else {
                    return None;
                }
            } else if inner[i] == '"' {
                return None;
            } else {
                out.push(inner[i]);
                i += 1;
            }
        }
        Some(out)
    } else {
        Some(param.to_string())
    }
}

#[test]
fn unquoting_inverts_quoting() {
    for original in [
        "",
        "plain",
        "two words",
        "C:\\path with space\\x",
        "say \"hi\"",
        "\\\\server\\share",
        "trailing backslash\\",
        "quote\"and\\slash mixed",
    ] {
        let param = quoted_param(original);
        assert_eq!(unquote(&param).as_deref(), Some(original));
    }
}

#[test]
fn params_join_with_single_spaces() {
    let args = vec![
        String::from("\\\\.\\pipe\\winusb-driver-installer"),
        String::from("two words"),
        String::from(""),
    ];
    assert_eq!(
        params_string(&args),
        "\\\\.\\pipe\\winusb-driver-installer \"two words\" \"\""
    );
    assert_eq!(params_string(&vec![]), "");
    assert_eq!(params_string(&vec![String::from("one")]), "one");
}
