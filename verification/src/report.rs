//! The two texts of a delivery: the message as it is posted, and the
//! confirmation shown once it has been posted.

use vstd::prelude::*;
use colored::Colorize;

verus! {

/// The post: the armored ciphertext inside a shell command that decrypts
/// it, inside a code block.
pub open spec fn decrypt_instructions(armored: Seq<char>) -> Seq<char> {
    "```\necho \"\n"@ + armored + "\" | gpg --decrypt\n```"@
}

/// The post that carries `armored`.
pub fn wrap_ciphertext(armored: &str) -> (r: String)
    ensures
        r@ == decrypt_instructions(armored@),
{
    let mut post = String::from_str("```\necho \"\n");
    post.append(armored);
    post.append("\" | gpg --decrypt\n```");
    post
}

/// What a confirmation says: who sent, to whom, under which key, and what.
#[derive(Debug, PartialEq, Eq)]
pub struct Confirmation {
    pub sender: String,
    pub recipient: String,
    pub fingerprint: String,
    pub message: String,
}

/// What a [`Confirmation`] holds, its texts as sequences of characters.
pub struct ConfirmationView {
    pub sender: Seq<char>,
    pub recipient: Seq<char>,
    pub fingerprint: Seq<char>,
    pub message: Seq<char>,
}

impl View for Confirmation {
    type V = ConfirmationView;

    open spec fn view(&self) -> ConfirmationView {
        ConfirmationView {
            sender: self.sender@,
            recipient: self.recipient@,
            fingerprint: self.fingerprint@,
            message: self.message@,
        }
    }
}

/// The confirmation's lines around its five parts.
pub open spec fn layout(
    mark: Seq<char>,
    sender: Seq<char>,
    recipient: Seq<char>,
    fingerprint: Seq<char>,
    message: Seq<char>,
) -> Seq<char> {
    mark + " Successfully sent message\nFROM:\t"@ + sender + "\nTO:\t"@ + recipient
        + "\nFINGERPRINT: "@ + fingerprint + "\nMESSAGE:\n"@ + message + "\n"@
}

/// The confirmation's lines around its five parts, each part as given.
pub fn lay_out(mark: &str, sender: &str, recipient: &str, fingerprint: &str, message: &str) -> (r:
    String)
    ensures
        r@ == layout(mark@, sender@, recipient@, fingerprint@, message@),
{
    let mut text = String::from_str(mark);
    text.append(" Successfully sent message\nFROM:\t");
    text.append(sender);
    text.append("\nTO:\t");
    text.append(recipient);
    text.append("\nFINGERPRINT: ");
    text.append(fingerprint);
    text.append("\nMESSAGE:\n");
    text.append(message);
    text.append("\n");
    text
}

/// The terminal sequence that ends a colour.
pub open spec fn reset() -> Seq<char> {
    "\x1B[0m"@
}

/// `text` holds the sequence that ends a colour.
pub open spec fn holds_reset(text: Seq<char>) -> bool {
    exists|i: int| 0 <= i && i + reset().len() <= text.len() && #[trigger] text.subrange(
        i,
        i + reset().len(),
    ) == reset()
}

/// What colouring `text` may give. Whether colours are shown is for the
/// terminal and the environment to say: `shown` is either `text` as it is,
/// or `text` between the colour's sequence and the one that ends it; or
/// `text` before the ending sequence alone, which is what comes out where
/// colours are switched off while the text is being coloured. Of a text
/// that itself holds the ending sequence nothing is said.
pub open spec fn coloured(text: Seq<char>, colour: Seq<char>, shown: Seq<char>) -> bool {
    holds_reset(text) || shown == text || shown == colour + text + reset() || shown == text
        + reset()
}

/// `text` through `colored`'s `Colorize::green`, as `Display` shows it.
/// Believed, not proved: the result is as [`coloured`] says, with green's
/// sequence.
#[verifier::external_body]
fn green(text: &str) -> (r: String)
    ensures
        coloured(text@, "\x1B[32m"@, r@),
{
    format!("{}", text.green())
}

/// `text` through `colored`'s `Colorize::magenta`, as `Display` shows it.
/// Believed, not proved: the result is as [`coloured`] says, with magenta's
/// sequence.
#[verifier::external_body]
fn magenta(text: &str) -> (r: String)
    ensures
        coloured(text@, "\x1B[35m"@, r@),
{
    format!("{}", text.magenta())
}

/// `text` through `colored`'s `Colorize::cyan`, as `Display` shows it.
/// Believed, not proved: the result is as [`coloured`] says, with cyan's
/// sequence.
#[verifier::external_body]
fn cyan(text: &str) -> (r: String)
    ensures
        coloured(text@, "\x1B[36m"@, r@),
{
    format!("{}", text.cyan())
}

impl ConfirmationView {
    /// `shown` is this confirmation laid out, with a green check mark, the
    /// sender in magenta, the recipient and the fingerprint in cyan, and
    /// the message as it is.
    pub open spec fn shown_as(self, shown: Seq<char>) -> bool {
        exists|mark: Seq<char>, sender: Seq<char>, recipient: Seq<char>, fingerprint: Seq<char>|
            coloured("\u{2713}"@, "\x1B[32m"@, mark) && coloured(self.sender, "\x1B[35m"@, sender)
                && coloured(self.recipient, "\x1B[36m"@, recipient) && coloured(
                self.fingerprint,
                "\x1B[36m"@,
                fingerprint,
            ) && shown == #[trigger] layout(mark, sender, recipient, fingerprint, self.message)
    }
}

impl Confirmation {
    /// The confirmation as it is printed.
    pub fn render(&self) -> (r: String)
        ensures
            self@.shown_as(r@),
    {
        let mark = green("\u{2713}");
        let sender = magenta(self.sender.as_str());
        let recipient = cyan(self.recipient.as_str());
        let fingerprint = cyan(self.fingerprint.as_str());
        let text = lay_out(
            mark.as_str(),
            sender.as_str(),
            recipient.as_str(),
            fingerprint.as_str(),
            self.message.as_str(),
        );
        assert(text@ == layout(mark@, sender@, recipient@, fingerprint@, self@.message));
        text
    }
}

} // verus!
