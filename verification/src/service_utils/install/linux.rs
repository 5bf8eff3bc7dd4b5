//! Installing ollama on Linux with the official script, after checking the
//! user's password with `sudo`.
use vstd::prelude::*;

verus! {

/// The program through which both steps run.
pub const SUDO: &'static str = "sudo";

/// The arguments that check a password without running anything: `sudo`
/// reads it from its input, forgets cached credentials and runs `true`.
pub const CHECK_PASSWORD_ARGS: [&'static str; 3] = ["-S", "-k", "true"];

/// The shell line that downloads and runs the official installer.
pub const INSTALL_SCRIPT: &'static str = "curl -fsSL https://ollama.com/install.sh | sh";

/// The error of a password that `sudo` refused; it holds the message.
#[derive(Debug, PartialEq, Eq, Hash)]
pub struct WrongPass(pub String);

/// The message of a refused password.
pub open spec fn wrong_pass_text(password: Seq<char>) -> Seq<char> {
    "wrong password : "@ + password
}

/// The message of a refused password is `wrong password : ` followed by
/// the whole password, and nothing else.
pub proof fn lemma_wrong_pass_text_holds_password(password: Seq<char>)
    ensures
        wrong_pass_text(password).len() == password.len() + 17,
        wrong_pass_text(password).subrange(0, 17) == seq![
            'w', 'r', 'o', 'n', 'g', ' ', 'p', 'a', 's', 's', 'w', 'o', 'r', 'd', ' ', ':', ' ',
        ],
        wrong_pass_text(password).subrange(17, wrong_pass_text(password).len() as int)
            == password,
{
    reveal_strlit("wrong password : ");
    let t = wrong_pass_text(password);
    assert(t.subrange(0, 17) =~= seq![
        'w', 'r', 'o', 'n', 'g', ' ', 'p', 'a', 's', 's', 'w', 'o', 'r', 'd', ' ', ':', ' ',
    ]);
    assert(t.subrange(17, t.len() as int) =~= password);
}

impl WrongPass {
    /// The error for the refused `password`: `wrong password : <password>`.
    pub fn for_password(password: &str) -> (w: WrongPass)
        ensures
            w.0@ == wrong_pass_text(password@),
    {
        let mut text = "wrong password : ".to_owned();
        text.append(password);
        WrongPass(text)
    }

    /// The message of the error.
    pub fn message(&self) -> (m: &str)
        ensures
            m@ == self.0@,
    {
        self.0.as_str()
    }
}

/// The line written to `sudo`'s input: the password and a newline.
pub fn password_line(password: &str) -> (line: String)
    ensures
        line@ == password@ + "\n"@,
{
    let mut line = password.to_owned();
    line.append("\n");
    line
}

/// Whether `sudo` accepted the password: writing it must not have failed,
/// and `sudo` must have exited with success (`exit_success` is `None` when
/// its exit could not be awaited).
pub fn password_accepted(write_failed: bool, exit_success: Option<bool>) -> (ok: bool)
    ensures
        ok == (!write_failed && exit_success == Some(true)),
{
    if write_failed {
        false
    } else {
        match exit_success {
            Some(s) => s,
            None => false,
        }
    }
}

/// Whether installation may go on: yes when the password was accepted,
/// otherwise the error for the refused password.
pub fn password_verdict(accepted: bool, password: &str) -> (res: Result<(), WrongPass>)
    ensures
        res is Ok <==> accepted,
        res matches Err(w) ==> w.0@ == wrong_pass_text(password@),
{
    if accepted {
        Ok(())
    } else {
        Err(WrongPass::for_password(password))
    }
}

} // verus!
