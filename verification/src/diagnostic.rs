//! The diagnostic emitter: one rendered message per flagged occurrence,
//! plus a fixed note pointing at the configuration option that extends
//! the recognized globals.  Repeated names in a file are not merged; each
//! flag yields its own diagnostic.

use vstd::prelude::*;
use vstd::string::StringExecFns;
use crate::model::{Flag, Span};

verus! {

/// A rendered diagnostic: the span to report, the message, and the
/// static explanatory note.
pub struct Diagnostic {
    pub span: Span,
    pub message: String,
    pub note: String,
}

/// The message rendered for a flagged name.
pub open spec fn message_spec(display_name: Seq<char>) -> Seq<char> {
    "`"@ + display_name + "` variable is undeclared."@
}

/// The static note: browser and Node.js globals are recognized by
/// default, and the `javascript.globals` configuration option allows
/// more.
pub open spec fn note_spec() -> Seq<char> {
    "By default, browser and Node.js globals are recognized. To allow further names, add them to the javascript.globals configuration option."@
}

/// Render one flagged occurrence into a diagnostic at the flagged span,
/// with the message built from the display name and the static note.
pub fn diagnostic(flag: &Flag) -> (d: Diagnostic)
    ensures
        d.span == flag.span,
        d.message@ == message_spec(flag@.display_name),
        d.note@ == note_spec(),
{
    let mut message = String::new();
    message.append("`");
    message.append(flag.display_name.as_str());
    message.append("` variable is undeclared.");
    proof {
        assert(message@ =~= message_spec(flag@.display_name));
    }
    let note: String =
        "By default, browser and Node.js globals are recognized. To allow further names, add them to the javascript.globals configuration option.".to_owned();
    Diagnostic { span: flag.span, message, note }
}

} // verus!
