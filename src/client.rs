use vstd::prelude::*;

use crate::message::{strings_view, Command, CommandView, TextMessage, TextMessageView, Timestamp};
use crate::user::User;

verus! {

/// Whether `c` has the Unicode property White_Space.
pub open spec fn is_white_space(c: char) -> bool {
    let u = c as u32;
    (9 <= u <= 13) || u == 32 || u == 0x85 || u == 0xa0 || u == 0x1680 || (0x2000 <= u <= 0x200a)
        || u == 0x2028 || u == 0x2029 || u == 0x202f || u == 0x205f || u == 0x3000
}

/// The word in progress, as a list of at most one word.
pub open spec fn pending(cur: Seq<char>) -> Seq<Seq<char>> {
    if cur.len() > 0 {
        seq![cur]
    } else {
        seq![]
    }
}

/// The words of `s`, after the word `cur` already begun: the maximal runs
/// of characters that are not white space, in order.
pub open spec fn words_after(cur: Seq<char>, s: Seq<char>) -> Seq<Seq<char>>
    decreases s.len(),
{
    if s.len() == 0 {
        pending(cur)
    } else if is_white_space(s[0]) {
        pending(cur) + words_after(seq![], s.drop_first())
    } else {
        words_after(cur.push(s[0]), s.drop_first())
    }
}

/// The words of `s`: its maximal runs of characters that are not white space.
pub open spec fn words_of(s: Seq<char>) -> Seq<Seq<char>> {
    words_after(seq![], s)
}

/// Relies on `str::split_whitespace`, documented to split at runs of
/// characters with the Unicode property White_Space and to yield no empty
/// word; the words are copied into owned strings.
#[verifier::external_body]
fn split_words(s: &str) -> (r: Vec<String>)
    ensures
        strings_view(r@) == words_of(s@),
{
    s.split_whitespace().map(String::from).collect()
}

/// The last `/`-separated segment of a path.
pub open spec fn base_name(p: Seq<char>) -> Seq<char>
    decreases p.len(),
{
    if p.len() == 0 {
        p
    } else if p.last() == '/' {
        seq![]
    } else {
        base_name(p.drop_last()).push(p.last())
    }
}

/// The part of `path` after its last `/`, or all of it where it has none.
pub fn base_name_of(path: &str) -> (r: String)
    ensures
        r@ == base_name(path@),
{
    let n = path.unicode_len();
    let mut k: usize = n;
    assert(path@.subrange(0, n as int) =~= path@);
    assert(base_name(path@) =~= base_name(path@.subrange(0, k as int)) + path@.subrange(
        k as int,
        n as int,
    ));
    while k > 0 && path.get_char(k - 1) != '/'
        invariant
            n == path@.len(),
            k <= n,
            base_name(path@) == base_name(path@.subrange(0, k as int)) + path@.subrange(
                k as int,
                n as int,
            ),
        decreases k,
    {
        let ghost p = path@;
        assert(p.subrange(0, k as int).drop_last() =~= p.subrange(0, k - 1));
        assert(p.subrange(k - 1, n as int) =~= seq![p[k - 1]] + p.subrange(k as int, n as int));
        assert(base_name(p.subrange(0, k - 1)).push(p[k - 1]) + p.subrange(k as int, n as int)
            =~= base_name(p.subrange(0, k - 1)) + p.subrange(k - 1, n as int));
        k = k - 1;
    }
    assert(base_name(path@.subrange(0, k as int)) =~= seq![]);
    assert(base_name(path@) =~= path@.subrange(k as int, n as int));
    path.substring_char(k, n).to_string()
}

/// Why a console line that starts with `/` was not turned into a request.
#[derive(Clone, Copy, Debug, PartialEq, Eq, Structural)]
pub enum InputError {
    /// The command word is none of the built-in ones.
    UnknownCommand,
    /// `/send` was given no path.
    MissingPath,
}

/// What a console line asks the client to do.
#[derive(Debug)]
pub enum ClientRequest {
    /// Show the list of commands.
    Help,
    /// Read the file at `path` and send it under `file_name`.
    SendFile { path: String, file_name: String },
    /// Send this command to the server.
    Send(Command),
    /// End the client at once.
    Quit,
    /// Send this text message to the server.
    Say(TextMessage),
}

/// A request as contracts see it.
pub enum ClientRequestView {
    Help,
    SendFile { path: Seq<char>, file_name: Seq<char> },
    Send(CommandView),
    Quit,
    Say(TextMessageView),
}

impl View for ClientRequest {
    type V = ClientRequestView;

    open spec fn view(&self) -> ClientRequestView {
        match self {
            ClientRequest::Help => ClientRequestView::Help,
            ClientRequest::SendFile { path, file_name } => ClientRequestView::SendFile {
                path: path@,
                file_name: file_name@,
            },
            ClientRequest::Send(c) => ClientRequestView::Send(c@),
            ClientRequest::Quit => ClientRequestView::Quit,
            ClientRequest::Say(m) => ClientRequestView::Say(m@),
        }
    }
}

/// The view of a request or the error.
pub open spec fn outcome_view(r: Result<ClientRequest, InputError>) -> Result<ClientRequestView, InputError> {
    match r {
        Ok(q) => Ok(q@),
        Err(e) => Err(e),
    }
}

/// The request that the words of a `/` line make, for the sender `user`.
pub open spec fn request_for(words: Seq<Seq<char>>, user: User) -> Result<ClientRequestView, InputError> {
    if words.len() == 0 {
        Err(InputError::UnknownCommand)
    } else if words[0] == "/help"@ {
        Ok(ClientRequestView::Help)
    } else if words[0] == "/send"@ {
        if words.len() > 1 {
            Ok(ClientRequestView::SendFile { path: words[1], file_name: base_name(words[1]) })
        } else {
            Err(InputError::MissingPath)
        }
    } else if words[0] == "/recvfile"@ {
        Ok(
            ClientRequestView::Send(
                CommandView {
                    username: user.username@,
                    user_id: user.user_id,
                    command: "/recvfile"@,
                    args: words.drop_first(),
                },
            ),
        )
    } else if words[0] == "/recvinfo"@ {
        Ok(
            ClientRequestView::Send(
                CommandView {
                    username: user.username@,
                    user_id: user.user_id,
                    command: "/recvinfo"@,
                    args: seq![],
                },
            ),
        )
    } else if words[0] == "/quit"@ {
        Ok(ClientRequestView::Quit)
    } else {
        Err(InputError::UnknownCommand)
    }
}

/// Turns the words of a console line that starts with `/` into a request.
pub fn request_from_words(words: &Vec<String>, user: &User) -> (r: Result<ClientRequest, InputError>)
    ensures
        outcome_view(r) == request_for(strings_view(words@), *user),
{
    let ghost w = strings_view(words@);
    if words.len() == 0 {
        return Err(InputError::UnknownCommand);
    }
    let head = &words[0];
    assert(head@ == w[0]);
    if *head == String::from_str("/help") {
        Ok(ClientRequest::Help)
    } else if *head == String::from_str("/send") {
        if words.len() > 1 {
            let path = words[1].clone();
            let file_name = base_name_of(path.as_str());
            Ok(ClientRequest::SendFile { path, file_name })
        } else {
            Err(InputError::MissingPath)
        }
    } else if *head == String::from_str("/recvfile") {
        let mut args: Vec<String> = Vec::new();
        let mut i: usize = 1;
        while i < words.len()
            invariant
                1 <= i <= words@.len(),
                w == strings_view(words@),
                strings_view(args@) == w.subrange(1, i as int),
            decreases words@.len() - i,
        {
            let ghost before = args@;
            args.push(words[i].clone());
            assert(args@ == before.push(words@[i as int]));
            assert(strings_view(args@) =~= strings_view(before).push(w[i as int]));
            assert(w.subrange(1, i + 1) =~= w.subrange(1, i as int).push(w[i as int]));
            i = i + 1;
        }
        assert(w.subrange(1, w.len() as int) =~= w.drop_first());
        let c = Command {
            username: user.username.clone(),
            user_id: user.user_id,
            command: String::from_str("/recvfile"),
            args,
        };
        Ok(ClientRequest::Send(c))
    } else if *head == String::from_str("/recvinfo") {
        let c = Command {
            username: user.username.clone(),
            user_id: user.user_id,
            command: String::from_str("/recvinfo"),
            args: Vec::new(),
        };
        assert(c@.args =~= Seq::<Seq<char>>::empty());
        Ok(ClientRequest::Send(c))
    } else if *head == String::from_str("/quit") {
        Ok(ClientRequest::Quit)
    } else {
        Err(InputError::UnknownCommand)
    }
}

/// Turns a console line that starts with `/` into a request, by its words.
pub fn process_cmd(cmd: &str, user: &User) -> (r: Result<ClientRequest, InputError>)
    ensures
        outcome_view(r) == request_for(words_of(cmd@), *user),
{
    let words = split_words(cmd);
    request_from_words(&words, user)
}

/// Whether a console line is a command: it starts with `/`.
pub open spec fn is_command_line(line: Seq<char>) -> bool {
    line.len() > 0 && line[0] == '/'
}

/// Turns one console line into a request: a line that starts with `/` by
/// its words, any other line into a text message from `user` created at `now`.
pub fn client_input(line: &str, user: &User, now: Timestamp) -> (r: Result<ClientRequest, InputError>)
    ensures
        is_command_line(line@) ==> outcome_view(r) == request_for(words_of(line@), *user),
        !is_command_line(line@) ==> outcome_view(r) == Ok::<ClientRequestView, InputError>(
            ClientRequestView::Say(
                TextMessageView {
                    username: user.username@,
                    user_id: user.user_id,
                    body: line@,
                    created_at: now,
                },
            ),
        ),
{
    if !line.is_empty() && line.get_char(0) == '/' {
        process_cmd(line, user)
    } else {
        Ok(ClientRequest::Say(TextMessage::new(user, line, now)))
    }
}

} // verus!
