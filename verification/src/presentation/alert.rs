//! The text of the alert that tells the user of a malformed configuration.
//!
//! Title and message end up inside a quoted string of a dialog script, so
//! every double quote in them is escaped first.

use vstd::prelude::*;
use vstd::string::*;

verus! {

/// The title of the alert for a malformed configuration.
pub const CONFIG_ALERT_TITLE: &'static str = "bgclipper: Config Error";

/// `text` with a backslash put before every double quote.
pub open spec fn escaped(text: Seq<char>) -> Seq<char>
    decreases text.len(),
{
    if text.len() == 0 {
        Seq::empty()
    } else if text.last() == '"' {
        escaped(text.drop_last()).push('\\').push('"')
    } else {
        escaped(text.drop_last()).push(text.last())
    }
}

/// The dialog script for an alert with the given title and message.
pub open spec fn dialog_script(title: Seq<char>, message: Seq<char>) -> Seq<char> {
    "display dialog \""@ + escaped(message) + "\" with title \""@ + escaped(title)
        + "\" buttons {\"OK\"} default button \"OK\""@
}

/// The plain text of an alert: the title, an empty line, the message.
pub open spec fn plain_alert(title: Seq<char>, message: Seq<char>) -> Seq<char> {
    title + "\n\n"@ + message
}

/// The line that is logged with every alert: the title, a colon, the message.
pub open spec fn alert_log_line(title: Seq<char>, message: Seq<char>) -> Seq<char> {
    title + ": "@ + message
}

/// Puts a backslash before every double quote of `text`.
pub fn escape_quotes(text: &str) -> (out: String)
    ensures
        out@ == escaped(text@),
{
    let len = text.unicode_len();
    let mut out = String::new();
    let mut i: usize = 0;
    while i < len
        invariant
            len == text@.len(),
            i <= len,
            out@ == escaped(text@.subrange(0, i as int)),
        decreases len - i,
    {
        let ghost before = text@.subrange(0, i as int);
        let ghost upto = text@.subrange(0, i + 1);
        proof {
            assert(upto.drop_last() =~= before);
            assert(upto.last() == text@[i as int]);
            reveal_strlit("\\\"");
        }
        if text.get_char(i) == '"' {
            out.append("\\\"");
            assert(out@ =~= escaped(upto));
        } else {
            out.append(text.substring_char(i, i + 1));
            assert(text@.subrange(i as int, i + 1) =~= seq![text@[i as int]]);
            assert(out@ =~= escaped(upto));
        }
        i += 1;
    }
    assert(text@.subrange(0, len as int) =~= text@);
    out
}

/// Builds the dialog script that shows an alert with the given title and
/// message. Both are escaped, so neither can end the quoted string it
/// stands in.
pub fn alert_script(title: &str, message: &str) -> (script: String)
    ensures
        script@ == dialog_script(title@, message@),
{
    let mut script = String::from_str("display dialog \"");
    script.append(escape_quotes(message).as_str());
    script.append("\" with title \"");
    script.append(escape_quotes(title).as_str());
    script.append("\" buttons {\"OK\"} default button \"OK\"");
    script
}

/// Builds the plain text of an alert, for a message box that takes no script.
pub fn alert_text(title: &str, message: &str) -> (text: String)
    ensures
        text@ == plain_alert(title@, message@),
{
    let mut text = String::from_str(title);
    text.append("\n\n");
    text.append(message);
    text
}

/// Builds the line that is logged with an alert.
pub fn alert_log(title: &str, message: &str) -> (line: String)
    ensures
        line@ == alert_log_line(title@, message@),
{
    let mut line = String::from_str(title);
    line.append(": ");
    line.append(message);
    line
}

} // verus!
