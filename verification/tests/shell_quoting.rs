use filter_host::shell::{
    copy_statement, escape_single_quotes, open_file_statement, open_folder_invocation,
    open_folder_statement, open_file_invocation, copy_invocation, quote_path, Platform,
};

#[test]
fn escape_leaves_plain_path_alone() {
    assert_eq!(escape_single_quotes("C:/Users/music"), "C:/Users/music");
}

#[test]
fn escape_doubles_each_single_quote() {
    assert_eq!(escape_single_quotes("it's"), "it''s");
    assert_eq!(escape_single_quotes("''"), "''''");
    assert_eq!(escape_single_quotes("'a'b'"), "''a''b''");
}

#[test]
fn escape_handles_empty_and_multibyte() {
    assert_eq!(escape_single_quotes(""), "");
    assert_eq!(escape_single_quotes("目标'文件"), "目标''文件");
}

#[test]
fn quote_wraps_escaped_path() {
    assert_eq!(quote_path("it's"), "'it''s'");
    assert_eq!(quote_path("plain"), "'plain'");
}

#[test]
fn open_folder_statement_is_exact() {
    assert_eq!(
        open_folder_statement("C:/Music"),
        "Start-Process -FilePath 'explorer' -ArgumentList 'C:/Music'"
    );
}

#[test]
fn open_file_statement_is_exact() {
    assert_eq!(
        open_file_statement("C:/a'b.txt"),
        "Start-Process -FilePath 'C:/a''b.txt'"
    );
}

#[test]
fn copy_statement_is_exact() {
    assert_eq!(
        copy_statement("s.mp3", "d/e.mp3"),
        "New-Item -ItemType Directory -Force -Path (Split-Path -Path 'd/e.mp3' -Parent); \
         Copy-Item -Path 's.mp3' -Destination 'd/e.mp3' -Force"
    );
}

#[test]
fn windows_invocation_is_hidden_shell() {
    let c = open_folder_invocation("C:/Music", Platform::Windows);
    assert_eq!(c.program, "powershell");
    assert_eq!(
        c.args,
        vec![
            "-NoProfile".to_string(),
            "-NonInteractive".to_string(),
            "-Command".to_string(),
            "Start-Process -FilePath 'explorer' -ArgumentList 'C:/Music'".to_string(),
        ]
    );
    assert!(c.hide_console);
}

#[test]
fn unix_invocations_use_native_openers() {
    let mac = open_folder_invocation("/tmp/x", Platform::MacOs);
    assert_eq!(mac.program, "open");
    assert_eq!(mac.args, vec!["/tmp/x".to_string()]);
    assert!(!mac.hide_console);

    let other = open_file_invocation("/tmp/x", Platform::OtherUnix);
    assert_eq!(other.program, "xdg-open");
    assert_eq!(other.args, vec!["/tmp/x".to_string()]);
    assert!(!other.hide_console);
}

/// The shell's own single-quote rule: the token must start with a quote;
/// inside, a doubled quote is one literal quote and a lone quote closes the
/// token, which must end there. Returns the argument the shell would see.
fn shell_unquote(token: &str) -> Option<String> {
    let chars: Vec<char> = token.chars().collect();
    if chars.is_empty() || chars[0] != '\'' {
        return None;
    }
    let mut out = String::new();
    let mut i = 1;
    while i < chars.len() {
        if chars[i] == '\'' {
            if i + 1 < chars.len() && chars[i + 1] == '\'' {
                out.push('\'');
                i += 2;
            } else if i == chars.len() - 1 {
                return Some(out);
            } else {
                return None;
            }
        } else {
            out.push(chars[i]);
            i += 1;
        }
    }
    None
}

#[test]
fn quoting_round_trips_through_shell_parsing() {
    for path in [
        "plain",
        "it's",
        "'",
        "''",
        "'leading",
        "trailing'",
        "a'b'c'd",
        "C:/Users/o'neil/sound files/x.wav",
        "",
    ] {
        assert_eq!(shell_unquote(&quote_path(path)), Some(path.to_string()));
    }
}

#[test]
fn copy_invocation_creates_parent_then_copies() {
    let c = copy_invocation("a'1.wav", "out dir/b.wav");
    assert_eq!(c.program, "powershell");
    assert!(c.hide_console);
    assert_eq!(
        c.args[3],
        "New-Item -ItemType Directory -Force -Path (Split-Path -Path 'out dir/b.wav' -Parent); \
         Copy-Item -Path 'a''1.wav' -Destination 'out dir/b.wav' -Force"
    );
}
