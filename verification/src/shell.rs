//! Shell Invoker: builds platform-appropriate external commands for opening
//! and copying files. Every path interpolated into a shell command line is
//! escaped by doubling single quotes and wrapped in single quotes; that rule
//! is the sole injection defense and is proved to round-trip through the
//! shell's own single-quote parsing.

use vstd::prelude::*;

verus! {

/// How one character of a path appears inside a single-quoted shell string:
/// a single quote is doubled, every other character stands as itself.
pub open spec fn escaped_char(c: char) -> Seq<char> {
    if c == '\'' {
        seq!['\'', '\'']
    } else {
        seq![c]
    }
}

/// The escaped form of a whole path: each single quote doubled.
pub open spec fn escape_spec(s: Seq<char>) -> Seq<char>
    decreases s.len(),
{
    if s.len() == 0 {
        Seq::empty()
    } else {
        escaped_char(s[0]) + escape_spec(s.skip(1))
    }
}

/// A path as it is interpolated into a shell command line: escaped and
/// wrapped in single quotes.
pub open spec fn quoted_spec(s: Seq<char>) -> Seq<char> {
    seq!['\''] + escape_spec(s) + seq!['\'']
}

/// Escaping distributes over concatenation.
proof fn lemma_escape_app(a: Seq<char>, b: Seq<char>)
    ensures
        escape_spec(a + b) == escape_spec(a) + escape_spec(b),
    decreases a.len(),
{
    if a.len() == 0 {
        assert(a + b =~= b);
        assert(escape_spec(a) + escape_spec(b) =~= escape_spec(b));
    } else {
        assert((a + b).skip(1) =~= a.skip(1) + b);
        lemma_escape_app(a.skip(1), b);
        assert(escape_spec(a) + escape_spec(b) =~= escaped_char(a[0]) + (escape_spec(a.skip(1))
            + escape_spec(b)));
    }
}

/// Extending the input by one character extends the escaped form by that
/// character's escaped image.
proof fn lemma_escape_snoc(s: Seq<char>, i: int)
    requires
        0 <= i < s.len(),
    ensures
        escape_spec(s.take(i + 1)) == escape_spec(s.take(i)) + escaped_char(s[i]),
{
    assert(s.take(i + 1) =~= s.take(i) + seq![s[i]]);
    lemma_escape_app(s.take(i), seq![s[i]]);
    assert(seq![s[i]].skip(1) =~= Seq::<char>::empty());
    assert(escape_spec(seq![s[i]]) =~= escaped_char(s[i])) by {
        reveal_with_fuel(escape_spec, 2);
    }
}

/// Double every single quote in a path, the escaping step of the quoting
/// rule.
pub fn escape_single_quotes(s: &str) -> (r: String)
    ensures
        r@ == escape_spec(s@),
{
    let n: usize = s.unicode_len();
    let mut out = String::new();
    let mut i: usize = 0;
    while i < n
        invariant
            n == s@.len(),
            i <= n,
            out@ == escape_spec(s@.take(i as int)),
        decreases n - i,
    {
        let c = s.get_char(i);
        if c == '\'' {
            out.append("''");
            proof {
                reveal_strlit("''");
                assert("''"@ =~= escaped_char('\''));
            }
        } else {
            let piece = s.substring_char(i, i + 1);
            out.append(piece);
            proof {
                assert(piece@ =~= escaped_char(s@[i as int]));
            }
        }
        proof {
            lemma_escape_snoc(s@, i as int);
        }
        i = i + 1;
    }
    proof {
        assert(s@.take(n as int) =~= s@);
    }
    out
}

/// How the shell parses a single-quoted token back: the token must begin
/// with a quote; inside, a doubled quote stands for one literal quote and a
/// lone quote closes the token, which must then end. `None` means the token
/// is not one single-quoted argument.
pub open spec fn parse_quoted(q: Seq<char>) -> Option<Seq<char>> {
    if q.len() >= 1 && q[0] == '\'' {
        parse_inner(q.skip(1))
    } else {
        None
    }
}

/// Parse the text after the opening quote: content of the argument if the
/// closing quote is the last character, `None` otherwise.
pub open spec fn parse_inner(q: Seq<char>) -> Option<Seq<char>>
    decreases q.len(),
{
    if q.len() == 0 {
        None
    } else if q[0] == '\'' {
        if q.len() >= 2 && q[1] == '\'' {
            match parse_inner(q.skip(2)) {
                Some(r) => Some(seq!['\''] + r),
                None => None,
            }
        } else if q.len() == 1 {
            Some(Seq::<char>::empty())
        } else {
            None
        }
    } else {
        match parse_inner(q.skip(1)) {
            Some(r) => Some(seq![q[0]] + r),
            None => None,
        }
    }
}

proof fn lemma_parse_escaped(s: Seq<char>)
    ensures
        parse_inner(escape_spec(s) + seq!['\'']) == Some(s),
    decreases s.len(),
{
    let q = escape_spec(s) + seq!['\''];
    if s.len() == 0 {
        assert(q =~= seq!['\'']);
        assert(parse_inner(q) == Some(Seq::<char>::empty()));
        assert(Seq::<char>::empty() =~= s);
    } else {
        lemma_parse_escaped(s.skip(1));
        let q1 = escape_spec(s.skip(1)) + seq!['\''];
        if s[0] == '\'' {
            assert(q =~= seq!['\'', '\''] + q1);
            assert(q.skip(2) =~= q1);
            assert(seq!['\''] + s.skip(1) =~= s);
        } else {
            assert(q =~= seq![s[0]] + q1);
            assert(q.skip(1) =~= q1);
            assert(seq![s[0]] + s.skip(1) =~= s);
        }
    }
}

/// The injection-safety law of the quoting rule: for every path, quoting and
/// then parsing by the shell's own single-quote rules yields the original
/// path unmodified, as exactly one argument.
pub proof fn lemma_quote_roundtrip(s: Seq<char>)
    ensures
        parse_quoted(quoted_spec(s)) == Some(s),
{
    assert(quoted_spec(s).skip(1) =~= escape_spec(s) + seq!['\'']);
    lemma_parse_escaped(s);
}

/// Escape a path and wrap it in single quotes, yielding the one audited
/// quoting routine reused by every shell command builder.
pub fn quote_path(s: &str) -> (r: String)
    ensures
        r@ == quoted_spec(s@),
{
    let mut out = String::from_str("'");
    let escaped = escape_single_quotes(s);
    out.append(escaped.as_str());
    out.append("'");
    proof {
        reveal_strlit("'");
        assert(out@ =~= quoted_spec(s@));
    }
    out
}

/// The shell statement that reveals a folder in the file manager on the
/// primary platform: starts the file-manager process with the quoted path as
/// its argument.
pub open spec fn open_folder_statement_spec(p: Seq<char>) -> Seq<char> {
    "Start-Process -FilePath 'explorer' -ArgumentList "@ + quoted_spec(p)
}

/// The shell statement that opens a file through the OS's default-application
/// association: starts the quoted path itself.
pub open spec fn open_file_statement_spec(p: Seq<char>) -> Seq<char> {
    "Start-Process -FilePath "@ + quoted_spec(p)
}

/// The shell statement that creates the destination's parent directory and
/// then copies source over destination, overwriting.
pub open spec fn copy_statement_spec(src: Seq<char>, dest: Seq<char>) -> Seq<char> {
    "New-Item -ItemType Directory -Force -Path (Split-Path -Path "@ + quoted_spec(dest)
        + " -Parent); Copy-Item -Path "@ + quoted_spec(src) + " -Destination "@ + quoted_spec(
        dest,
    ) + " -Force"@
}

/// Build the reveal-folder shell statement for a path.
pub fn open_folder_statement(path: &str) -> (r: String)
    ensures
        r@ == open_folder_statement_spec(path@),
{
    let mut out = String::from_str("Start-Process -FilePath 'explorer' -ArgumentList ");
    let q = quote_path(path);
    out.append(q.as_str());
    out
}

/// Build the open-file shell statement for a path.
pub fn open_file_statement(path: &str) -> (r: String)
    ensures
        r@ == open_file_statement_spec(path@),
{
    let mut out = String::from_str("Start-Process -FilePath ");
    let q = quote_path(path);
    out.append(q.as_str());
    out
}

/// Build the make-parent-then-copy shell statement for a source and a
/// destination path.
pub fn copy_statement(src: &str, dest: &str) -> (r: String)
    ensures
        r@ == copy_statement_spec(src@, dest@),
{
    let qs = quote_path(src);
    let qd = quote_path(dest);
    let mut out = String::from_str("New-Item -ItemType Directory -Force -Path (Split-Path -Path ");
    out.append(qd.as_str());
    out.append(" -Parent); Copy-Item -Path ");
    out.append(qs.as_str());
    out.append(" -Destination ");
    out.append(qd.as_str());
    out.append(" -Force");
    out
}

/// The platform the invoker runs on; selected once at startup by the
/// surrounding application.
#[derive(PartialEq, Eq, Structural, Clone, Copy, Debug)]
pub enum Platform {
    /// The primary target: shell statements run through a hidden-console
    /// shell interpreter.
    Windows,
    /// Uses the native `open` utility.
    MacOs,
    /// Uses the native `xdg-open` utility.
    OtherUnix,
}

/// An ephemeral description of one external process invocation: executable
/// name, argument list, and whether the process must be created with its
/// console window suppressed.
pub struct ShellCommand {
    pub program: String,
    pub args: Vec<String>,
    pub hide_console: bool,
}

impl ShellCommand {
    /// The argument list as a sequence of character sequences.
    pub open spec fn args_view(self) -> Seq<Seq<char>> {
        self.args@.map_values(|a: String| a@)
    }

    /// The invocation runs the given statement through the hidden-console
    /// shell interpreter of the primary platform.
    pub open spec fn is_hidden_shell(self, statement: Seq<char>) -> bool {
        &&& self.program@ == "powershell"@
        &&& self.args_view() =~= seq![
            "-NoProfile"@,
            "-NonInteractive"@,
            "-Command"@,
            statement,
        ]
        &&& self.hide_console
    }

    /// The invocation runs a native opener utility directly on the path,
    /// with no console to suppress.
    pub open spec fn is_native_opener(self, utility: Seq<char>, path: Seq<char>) -> bool {
        &&& self.program@ == utility
        &&& self.args_view() =~= seq![path]
        &&& !self.hide_console
    }
}

fn hidden_shell_invocation(statement: String) -> (r: ShellCommand)
    ensures
        r.is_hidden_shell(statement@),
{
    let mut args: Vec<String> = Vec::new();
    args.push(String::from_str("-NoProfile"));
    args.push(String::from_str("-NonInteractive"));
    args.push(String::from_str("-Command"));
    args.push(statement);
    ShellCommand { program: String::from_str("powershell"), args, hide_console: true }
}

fn native_opener_invocation(utility: &str, path: &str) -> (r: ShellCommand)
    ensures
        r.is_native_opener(utility@, path@),
{
    let mut args: Vec<String> = Vec::new();
    args.push(String::from_str(path));
    ShellCommand { program: String::from_str(utility), args, hide_console: false }
}

/// The process invocation that reveals a folder on the given platform.
pub fn open_folder_invocation(path: &str, platform: Platform) -> (r: ShellCommand)
    ensures
        platform is Windows ==> r.is_hidden_shell(open_folder_statement_spec(path@)),
        platform is MacOs ==> r.is_native_opener("open"@, path@),
        platform is OtherUnix ==> r.is_native_opener("xdg-open"@, path@),
{
    match platform {
        Platform::Windows => hidden_shell_invocation(open_folder_statement(path)),
        Platform::MacOs => native_opener_invocation("open", path),
        Platform::OtherUnix => native_opener_invocation("xdg-open", path),
    }
}

/// The process invocation that opens a file with its default application on
/// the given platform.
pub fn open_file_invocation(path: &str, platform: Platform) -> (r: ShellCommand)
    ensures
        platform is Windows ==> r.is_hidden_shell(open_file_statement_spec(path@)),
        platform is MacOs ==> r.is_native_opener("open"@, path@),
        platform is OtherUnix ==> r.is_native_opener("xdg-open"@, path@),
{
    match platform {
        Platform::Windows => hidden_shell_invocation(open_file_statement(path)),
        Platform::MacOs => native_opener_invocation("open", path),
        Platform::OtherUnix => native_opener_invocation("xdg-open", path),
    }
}

/// The shell-mediated copy invocation of the primary platform: one hidden
/// shell process that creates the destination's parent directory and copies.
/// On other platforms copying uses direct file-system primitives instead of
/// a process, so no invocation is built there.
pub fn copy_invocation(src: &str, dest: &str) -> (r: ShellCommand)
    ensures
        r.is_hidden_shell(copy_statement_spec(src@, dest@)),
{
    hidden_shell_invocation(copy_statement(src, dest))
}

} // verus!
