//! Command parsing and dispatch selection: a committed input line is split
//! into a command token and arguments, the token is resolved against the
//! fixed command table, and the resolved kind names the handler that serves
//! it.
use vstd::prelude::*;

use crate::qvault_log::{log_info, stamped, QvaultLog};
use crate::text::{
    hex_char, hex_digit, lower_of, lowercase, push_char, split_whitespace_toks, tokens_of,
};

pub mod qvault_ai;
pub mod qvault_search;

verus! {

/// The closed set of command kinds. `Error` stands for an unrecognized
/// slash-command; it is never produced for a bare line.
#[derive(Clone, Copy, Debug, PartialEq, Eq, Structural)]
pub enum QvaultCmdName {
    Error,
    Help,
    History,
    Exit,
    Search,
    Settings,
    Ai,
}

/// The canonical slash-name of each command kind.
pub open spec fn spec_cmd_text(n: QvaultCmdName) -> Seq<char> {
    match n {
        QvaultCmdName::Help => "/help"@,
        QvaultCmdName::History => "/history"@,
        QvaultCmdName::Exit => "/exit"@,
        QvaultCmdName::Search => "/search"@,
        QvaultCmdName::Settings => "/set"@,
        QvaultCmdName::Ai => "/ai"@,
        QvaultCmdName::Error => "Error"@,
    }
}

/// The one-line description of each command kind.
pub open spec fn spec_help_text(n: QvaultCmdName) -> Seq<char> {
    match n {
        QvaultCmdName::Help => "Show this help message"@,
        QvaultCmdName::History => "History of commands"@,
        QvaultCmdName::Exit => "Exit from Qvault"@,
        QvaultCmdName::Search => "Search using Brave Search"@,
        QvaultCmdName::Settings => "Settings for Qvault"@,
        QvaultCmdName::Ai => "AI lookup using OpenAI"@,
        QvaultCmdName::Error => "Error(internal only)"@,
    }
}

/// The display name of each command kind.
pub open spec fn spec_display_name(n: QvaultCmdName) -> Seq<char> {
    match n {
        QvaultCmdName::Help => "Help"@,
        QvaultCmdName::History => "History"@,
        QvaultCmdName::Exit => "Exit"@,
        QvaultCmdName::Search => "Search"@,
        QvaultCmdName::Settings => "Set"@,
        QvaultCmdName::Ai => "AI"@,
        QvaultCmdName::Error => "Error"@,
    }
}

/// The command kind a token resolves to: a token without the `/` prefix is
/// an implicit search; a prefixed token is matched case-insensitively
/// against the fixed command-name table, and an unmatched one resolves to
/// `Error`.
pub open spec fn cmd_name_of(tok: Seq<char>) -> QvaultCmdName {
    if tok.len() == 0 || tok[0] != '/' {
        QvaultCmdName::Search
    } else if lower_of(tok) == "/help"@ {
        QvaultCmdName::Help
    } else if lower_of(tok) == "/history"@ {
        QvaultCmdName::History
    } else if lower_of(tok) == "/exit"@ {
        QvaultCmdName::Exit
    } else if lower_of(tok) == "/search"@ {
        QvaultCmdName::Search
    } else if lower_of(tok) == "/set"@ {
        QvaultCmdName::Settings
    } else if lower_of(tok) == "/ai"@ {
        QvaultCmdName::Ai
    } else {
        QvaultCmdName::Error
    }
}

/// The declared order of the command kinds, the order the help panel walks.
pub open spec fn spec_all_commands() -> Seq<QvaultCmdName> {
    seq![
        QvaultCmdName::Error,
        QvaultCmdName::Help,
        QvaultCmdName::History,
        QvaultCmdName::Exit,
        QvaultCmdName::Search,
        QvaultCmdName::Settings,
        QvaultCmdName::Ai,
    ]
}

/// One help-panel line: the slash-name and the description.
pub open spec fn help_line_of(n: QvaultCmdName) -> Seq<char> {
    spec_cmd_text(n) + " - "@ + spec_help_text(n)
}

impl QvaultCmdName {
    /// The one-line description of this command kind.
    pub fn get_help(&self) -> (r: String)
        ensures
            r@ == spec_help_text(*self),
    {
        let t: &str = match self {
            QvaultCmdName::Help => "Show this help message",
            QvaultCmdName::History => "History of commands",
            QvaultCmdName::Exit => "Exit from Qvault",
            QvaultCmdName::Search => "Search using Brave Search",
            QvaultCmdName::Settings => "Settings for Qvault",
            QvaultCmdName::Ai => "AI lookup using OpenAI",
            QvaultCmdName::Error => "Error(internal only)",
        };
        String::from_str(t)
    }

    /// The canonical slash-name of this command kind.
    pub fn get_cmd(&self) -> (r: String)
        ensures
            r@ == spec_cmd_text(*self),
    {
        let t: &str = match self {
            QvaultCmdName::Help => "/help",
            QvaultCmdName::History => "/history",
            QvaultCmdName::Exit => "/exit",
            QvaultCmdName::Search => "/search",
            QvaultCmdName::Settings => "/set",
            QvaultCmdName::Ai => "/ai",
            QvaultCmdName::Error => "Error",
        };
        String::from_str(t)
    }

    /// The display name of this command kind.
    pub fn name_str(&self) -> (r: String)
        ensures
            r@ == spec_display_name(*self),
    {
        let t: &str = match self {
            QvaultCmdName::Help => "Help",
            QvaultCmdName::History => "History",
            QvaultCmdName::Exit => "Exit",
            QvaultCmdName::Search => "Search",
            QvaultCmdName::Settings => "Set",
            QvaultCmdName::Ai => "AI",
            QvaultCmdName::Error => "Error",
        };
        String::from_str(t)
    }

    /// Resolves one command token, as `cmd_name_of` describes.
    pub fn from_token(tok: &str) -> (r: QvaultCmdName)
        ensures
            r == cmd_name_of(tok@),
    {
        if tok.unicode_len() == 0 {
            return QvaultCmdName::Search;
        }
        if tok.get_char(0) != '/' {
            return QvaultCmdName::Search;
        }
        let lower = lowercase(tok);
        if lower == String::from_str("/help") {
            QvaultCmdName::Help
        } else if lower == String::from_str("/history") {
            QvaultCmdName::History
        } else if lower == String::from_str("/exit") {
            QvaultCmdName::Exit
        } else if lower == String::from_str("/search") {
            QvaultCmdName::Search
        } else if lower == String::from_str("/set") {
            QvaultCmdName::Settings
        } else if lower == String::from_str("/ai") {
            QvaultCmdName::Ai
        } else {
            QvaultCmdName::Error
        }
    }

    /// The command kind whose handler serves this kind: `Error` is routed
    /// to the `Search` handler by design; every other kind is served by its
    /// own handler.
    pub fn get_handler(&self) -> (r: QvaultCmdName)
        ensures
            r == (if *self == QvaultCmdName::Error {
                QvaultCmdName::Search
            } else {
                *self
            }),
    {
        match self {
            QvaultCmdName::Search => QvaultCmdName::Search,
            QvaultCmdName::Help => QvaultCmdName::Help,
            QvaultCmdName::Exit => QvaultCmdName::Exit,
            QvaultCmdName::History => QvaultCmdName::History,
            QvaultCmdName::Settings => QvaultCmdName::Settings,
            QvaultCmdName::Ai => QvaultCmdName::Ai,
            QvaultCmdName::Error => QvaultCmdName::Search,
        }
    }

    /// All command kinds, in declared order.
    pub fn all_commands() -> (r: Vec<QvaultCmdName>)
        ensures
            r@ == spec_all_commands(),
    {
        let mut r: Vec<QvaultCmdName> = Vec::new();
        r.push(QvaultCmdName::Error);
        r.push(QvaultCmdName::Help);
        r.push(QvaultCmdName::History);
        r.push(QvaultCmdName::Exit);
        r.push(QvaultCmdName::Search);
        r.push(QvaultCmdName::Settings);
        r.push(QvaultCmdName::Ai);
        proof {
            assert(r@ =~= spec_all_commands());
        }
        r
    }
}

/// The help-panel lines, one per command kind, in declared order.
pub fn help_lines() -> (r: Vec<String>)
    ensures
        r@.len() == spec_all_commands().len(),
        forall|i: int|
            0 <= i < r@.len() ==> r@[i]@ == help_line_of(spec_all_commands()[i]),
{
    let all = QvaultCmdName::all_commands();
    let mut r: Vec<String> = Vec::new();
    let mut i: usize = 0;
    while i < all.len()
        invariant
            all@ == spec_all_commands(),
            i <= all@.len(),
            r@.len() == i,
            forall|j: int| 0 <= j < i ==> r@[j]@ == help_line_of(spec_all_commands()[j]),
        decreases all@.len() - i,
    {
        let cmd = all[i];
        let mut line = cmd.get_cmd();
        line.append(" - ");
        let help = cmd.get_help();
        line.append(help.as_str());
        proof {
            assert(line@ =~= help_line_of(cmd));
        }
        r.push(line);
        i = i + 1;
    }
    r
}

/// The escape of one character inside a rendered, quoted argument:
/// quotes, backslashes and the named control characters take their
/// two-character escapes; the other C0 and C1 control characters and DEL
/// take a `\u{..}` escape with minimal lowercase hex; every other
/// character stands as itself. This agrees with how `Debug` renders
/// string contents for every character up to U+00FF; non-printable
/// Unicode above that, which `Debug` would also escape, stands as itself
/// here.
pub open spec fn dbg_esc_char(c: char) -> Seq<char> {
    if c == '"' {
        seq!['\\', '"']
    } else if c == '\\' {
        seq!['\\', '\\']
    } else if c == '\n' {
        seq!['\\', 'n']
    } else if c == '\r' {
        seq!['\\', 'r']
    } else if c == '\t' {
        seq!['\\', 't']
    } else if c == '\0' {
        seq!['\\', '0']
    } else if (c as u32) < 32 || (127 <= (c as u32) && (c as u32) <= 159) {
        seq!['\\', 'u', '{'] + (if (c as u32) < 16 {
            seq![hex_digit((c as u32) as nat)]
        } else {
            seq![hex_digit((c as u32) as nat / 16), hex_digit((c as u32) as nat % 16)]
        }) + seq!['}']
    } else {
        seq![c]
    }
}

/// A whole argument escaped for its place inside the quotes.
pub open spec fn dbg_escaped(s: Seq<char>) -> Seq<char>
    decreases s.len(),
{
    if s.len() == 0 {
        Seq::<char>::empty()
    } else {
        dbg_esc_char(s[0]) + dbg_escaped(s.drop_first())
    }
}

/// Escaping distributes over concatenation.
proof fn lemma_dbg_escaped_append(a: Seq<char>, b: Seq<char>)
    ensures
        dbg_escaped(a + b) == dbg_escaped(a) + dbg_escaped(b),
    decreases a.len(),
{
    if a.len() == 0 {
        assert(a + b =~= b);
        assert(dbg_escaped(a) + dbg_escaped(b) =~= dbg_escaped(b));
    } else {
        assert((a + b).len() > 0);
        assert((a + b)[0] == a[0]);
        assert((a + b).drop_first() =~= a.drop_first() + b);
        lemma_dbg_escaped_append(a.drop_first(), b);
        assert(dbg_escaped(a + b) =~= dbg_escaped(a) + dbg_escaped(b));
    }
}

/// Appends the escape of one character.
fn push_dbg_esc_char(out: &mut String, c: char)
    ensures
        final(out)@ == old(out)@ + dbg_esc_char(c),
{
    if c == '"' {
        out.append("\\\"");
        proof {
            reveal_strlit("\\\"");
            assert(out@ =~= old(out)@ + dbg_esc_char(c));
        }
    } else if c == '\\' {
        out.append("\\\\");
        proof {
            reveal_strlit("\\\\");
            assert(out@ =~= old(out)@ + dbg_esc_char(c));
        }
    } else if c == '\n' {
        out.append("\\n");
        proof {
            reveal_strlit("\\n");
            assert(out@ =~= old(out)@ + dbg_esc_char(c));
        }
    } else if c == '\r' {
        out.append("\\r");
        proof {
            reveal_strlit("\\r");
            assert(out@ =~= old(out)@ + dbg_esc_char(c));
        }
    } else if c == '\t' {
        out.append("\\t");
        proof {
            reveal_strlit("\\t");
            assert(out@ =~= old(out)@ + dbg_esc_char(c));
        }
    } else if c == '\0' {
        out.append("\\0");
        proof {
            reveal_strlit("\\0");
            assert(out@ =~= old(out)@ + dbg_esc_char(c));
        }
    } else if (c as u32) < 32 || (127 <= (c as u32) && (c as u32) <= 159) {
        out.append("\\u{");
        let v = c as u32;
        if v < 16 {
            push_char(out, hex_char(v as u8));
        } else {
            push_char(out, hex_char((v / 16) as u8));
            push_char(out, hex_char((v % 16) as u8));
        }
        out.append("}");
        proof {
            reveal_strlit("\\u{");
            reveal_strlit("}");
            assert(out@ =~= old(out)@ + dbg_esc_char(c));
        }
    } else {
        push_char(out, c);
        proof {
            assert(out@ =~= old(out)@ + dbg_esc_char(c));
        }
    }
}

/// Appends `s` escaped, as `dbg_escaped` describes.
fn push_dbg_escaped(out: &mut String, s: &str)
    ensures
        final(out)@ == old(out)@ + dbg_escaped(s@),
{
    let chars = crate::text::chars_of(s);
    let mut i: usize = 0;
    proof {
        assert(old(out)@ + dbg_escaped(s@.take(0)) =~= old(out)@);
    }
    while i < chars.len()
        invariant
            chars@ == s@,
            i <= s@.len(),
            out@ == old(out)@ + dbg_escaped(s@.take(i as int)),
        decreases s@.len() - i,
    {
        push_dbg_esc_char(out, chars[i]);
        i = i + 1;
        proof {
            assert(s@.take(i as int) =~= s@.take(i - 1) + seq![s@[i - 1]]);
            lemma_dbg_escaped_append(s@.take(i - 1), seq![s@[i - 1]]);
            assert(seq![s@[i - 1]].drop_first() =~= Seq::<char>::empty());
            assert(dbg_escaped(Seq::<char>::empty()) =~= Seq::<char>::empty());
            assert(dbg_escaped(seq![s@[i - 1]]) =~= dbg_esc_char(s@[i - 1]));
            assert(out@ =~= old(out)@ + dbg_escaped(s@.take(i as int)));
        }
    }
    proof {
        assert(s@.take(s@.len() as int) =~= s@);
    }
}

/// One parsed command: its kind and its argument tokens, in order.
#[derive(Debug, Clone)]
pub struct QvaultCmd {
    pub name: QvaultCmdName,
    pub args: Vec<String>,
}

impl QvaultCmd {
    /// Parses a committed line: the first whitespace-separated token
    /// resolves the command kind and the remaining tokens are the
    /// arguments; a line with no tokens is rejected.
    pub fn from_input(c: &str) -> (r: Result<QvaultCmd, String>)
        ensures
            tokens_of(c@).len() == 0 ==> r is Err && r->Err_0@ == "No command found in input"@,
            tokens_of(c@).len() > 0 ==> r is Ok && r->Ok_0.name == cmd_name_of(tokens_of(c@)[0])
                && r->Ok_0.args.deep_view() == tokens_of(c@).drop_first(),
    {
        let mut toks = split_whitespace_toks(c);
        if toks.len() == 0 {
            proof {
                assert(toks.deep_view().len() == 0);
            }
            return Err(String::from_str("No command found in input"));
        }
        proof {
            assert(toks.deep_view().len() > 0);
        }
        let first = toks.remove(0);
        let name = QvaultCmdName::from_token(first.as_str());
        proof {
            assert(first@ == tokens_of(c@)[0]);
            assert(toks.deep_view() =~= tokens_of(c@).drop_first());
        }
        Ok(QvaultCmd { name, args: toks })
    }

    /// The rendered argument list, element `i` on: each argument escaped
    /// and quoted, the elements separated by a comma and a space.
    pub open spec fn spec_args_list(args: Seq<Seq<char>>, i: int) -> Seq<char>
        decreases args.len() - i,
    {
        if i < 0 || i >= args.len() {
            Seq::<char>::empty()
        } else {
            (if i > 0 {
                ", "@
            } else {
                Seq::<char>::empty()
            }) + seq!['"'] + dbg_escaped(args[i]) + seq!['"'] + QvaultCmd::spec_args_list(
                args,
                i + 1,
            )
        }
    }

    /// The one-line rendering of a parsed command, the form the history
    /// stores.
    pub open spec fn spec_cmd_line(name: QvaultCmdName, args: Seq<Seq<char>>) -> Seq<char> {
        "QvaultCmd { name: "@ + spec_display_name(name) + ", args: ["@ + QvaultCmd::spec_args_list(
            args,
            0,
        ) + "] }"@
    }

    /// Renders this command as one line, as `spec_cmd_line` describes.
    pub fn to_text(&self) -> (r: String)
        ensures
            r@ == QvaultCmd::spec_cmd_line(self.name, self.args.deep_view()),
    {
        let ghost dv = self.args.deep_view();
        let mut r = String::from_str("QvaultCmd { name: ");
        let name = self.name.name_str();
        r.append(name.as_str());
        r.append(", args: [");
        let ghost mid = r@;
        let mut i: usize = 0;
        while i < self.args.len()
            invariant
                dv == self.args.deep_view(),
                dv.len() == self.args@.len(),
                i <= self.args@.len(),
                mid + QvaultCmd::spec_args_list(dv, 0) == r@ + QvaultCmd::spec_args_list(
                    dv,
                    i as int,
                ),
            decreases self.args@.len() - i,
        {
            let ghost pre = r@;
            if i > 0 {
                r.append(", ");
            }
            r.append("\"");
            push_dbg_escaped(&mut r, self.args[i].as_str());
            r.append("\"");
            proof {
                reveal_strlit("\"");
                assert(dv[i as int] == self.args@[i as int]@);
                assert(r@ =~= pre + ((if i > 0 {
                    ", "@
                } else {
                    Seq::<char>::empty()
                }) + seq!['"'] + dbg_escaped(dv[i as int]) + seq!['"']));
                assert(r@ + QvaultCmd::spec_args_list(dv, i + 1) =~= pre
                    + QvaultCmd::spec_args_list(dv, i as int));
            }
            i = i + 1;
        }
        proof {
            assert(QvaultCmd::spec_args_list(dv, dv.len() as int) =~= Seq::<char>::empty());
            assert(r@ + QvaultCmd::spec_args_list(dv, dv.len() as int) =~= r@);
        }
        r.append("] }");
        proof {
            assert(r@ =~= QvaultCmd::spec_cmd_line(self.name, dv));
        }
        r
    }

    /// Records the executed command in the log.
    pub fn log_it(&self, log: &mut QvaultLog)
        ensures
            final(log).entries@.len() == old(log).entries@.len() + 1,
            final(log).entries@.drop_last() == old(log).entries@,
            exists|ts: Seq<char>|
                stamped(
                    final(log).entries@.last()@,
                    "INFO"@,
                    "Command executed:"@ + spec_display_name(self.name),
                    ts,
                ),
    {
        let name = self.name.name_str();
        log_info(log, "Command executed:", name.as_str());
    }
}

} // verus!
