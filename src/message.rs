use vstd::prelude::*;

use crate::text::push_char;
use crate::user::User;

verus! {

/// An instant, as whole seconds since the Unix epoch (UTC) and the
/// nanoseconds past that second.
#[derive(Clone, Copy, Debug, PartialEq, Eq, Structural)]
pub struct Timestamp {
    pub secs: i64,
    pub nanos: u32,
}

/// A chat line from one sender.
#[derive(Debug)]
pub struct TextMessage {
    pub username: String,
    pub user_id: uuid::Uuid,
    pub body: String,
    pub created_at: Timestamp,
}

/// A whole file, sent in one message. `file_size` is what the sender
/// declared; it is not checked against `file_data`.
#[derive(Debug)]
pub struct FileMessage {
    pub username: String,
    pub user_id: uuid::Uuid,
    pub file_name: String,
    pub file_size: usize,
    pub file_data: Vec<u8>,
}

/// A request addressed to the server, answered to the issuing connection only.
#[derive(Debug)]
pub struct Command {
    pub username: String,
    pub user_id: uuid::Uuid,
    pub command: String,
    pub args: Vec<String>,
}

/// A text message as contracts see it.
pub struct TextMessageView {
    pub username: Seq<char>,
    pub user_id: uuid::Uuid,
    pub body: Seq<char>,
    pub created_at: Timestamp,
}

/// A file message as contracts see it.
pub struct FileMessageView {
    pub username: Seq<char>,
    pub user_id: uuid::Uuid,
    pub file_name: Seq<char>,
    pub file_size: usize,
    pub file_data: Seq<u8>,
}

/// A command as contracts see it.
pub struct CommandView {
    pub username: Seq<char>,
    pub user_id: uuid::Uuid,
    pub command: Seq<char>,
    pub args: Seq<Seq<char>>,
}

/// The characters of each string, in order.
pub open spec fn strings_view(v: Seq<String>) -> Seq<Seq<char>> {
    v.map_values(|s: String| s@)
}

impl View for TextMessage {
    type V = TextMessageView;

    open spec fn view(&self) -> TextMessageView {
        TextMessageView {
            username: self.username@,
            user_id: self.user_id,
            body: self.body@,
            created_at: self.created_at,
        }
    }
}

impl View for FileMessage {
    type V = FileMessageView;

    open spec fn view(&self) -> FileMessageView {
        FileMessageView {
            username: self.username@,
            user_id: self.user_id,
            file_name: self.file_name@,
            file_size: self.file_size,
            file_data: self.file_data@,
        }
    }
}

impl View for Command {
    type V = CommandView;

    open spec fn view(&self) -> CommandView {
        CommandView {
            username: self.username@,
            user_id: self.user_id,
            command: self.command@,
            args: strings_view(self.args@),
        }
    }
}

/// A copy of each string, in order.
pub(crate) fn copy_strings(v: &Vec<String>) -> (r: Vec<String>)
    ensures
        strings_view(r@) == strings_view(v@),
{
    let mut r: Vec<String> = Vec::new();
    let mut i: usize = 0;
    while i < v.len()
        invariant
            i <= v@.len(),
            r@.len() == i,
            forall|j: int| 0 <= j < i ==> r@[j]@ == v@[j]@,
        decreases v@.len() - i,
    {
        r.push(v[i].clone());
        i = i + 1;
    }
    assert(strings_view(r@) =~= strings_view(v@));
    r
}

/// A copy of the bytes, in order.
pub(crate) fn copy_bytes(v: &Vec<u8>) -> (r: Vec<u8>)
    ensures
        r@ == v@,
{
    let mut r: Vec<u8> = Vec::new();
    let mut i: usize = 0;
    while i < v.len()
        invariant
            i <= v@.len(),
            r@ == v@.subrange(0, i as int),
        decreases v@.len() - i,
    {
        r.push(v[i]);
        i = i + 1;
    }
    assert(v@.subrange(0, v@.len() as int) =~= v@);
    r
}

impl Clone for TextMessage {
    fn clone(&self) -> (r: TextMessage)
        ensures
            r@ == self@,
    {
        TextMessage {
            username: self.username.clone(),
            user_id: self.user_id,
            body: self.body.clone(),
            created_at: self.created_at,
        }
    }
}

impl Clone for FileMessage {
    fn clone(&self) -> (r: FileMessage)
        ensures
            r@ == self@,
    {
        FileMessage {
            username: self.username.clone(),
            user_id: self.user_id,
            file_name: self.file_name.clone(),
            file_size: self.file_size,
            file_data: copy_bytes(&self.file_data),
        }
    }
}

impl Clone for Command {
    fn clone(&self) -> (r: Command)
        ensures
            r@ == self@,
    {
        Command {
            username: self.username.clone(),
            user_id: self.user_id,
            command: self.command.clone(),
            args: copy_strings(&self.args),
        }
    }
}

impl TextMessage {
    /// A text message from `user` with the given body and creation time.
    pub fn new(user: &User, body: &str, created_at: Timestamp) -> (r: TextMessage)
        ensures
            r@ == (TextMessageView {
                username: user.username@,
                user_id: user.user_id,
                body: body@,
                created_at,
            }),
    {
        TextMessage {
            username: user.username.clone(),
            user_id: user.user_id,
            body: body.to_string(),
            created_at,
        }
    }
}

impl FileMessage {
    /// A file message from `user` carrying a copy of `file_data`.
    pub fn new(user: &User, file_name: &str, file_size: usize, file_data: &Vec<u8>) -> (r: FileMessage)
        ensures
            r@ == (FileMessageView {
                username: user.username@,
                user_id: user.user_id,
                file_name: file_name@,
                file_size,
                file_data: file_data@,
            }),
    {
        FileMessage {
            username: user.username.clone(),
            user_id: user.user_id,
            file_name: file_name.to_string(),
            file_size,
            file_data: copy_bytes(file_data),
        }
    }
}

impl Command {
    /// A command from `user` with the given name and arguments, in order.
    pub fn new(user: &User, command: &str, args: Vec<&str>) -> (r: Command)
        ensures
            r@.username == user.username@,
            r@.user_id == user.user_id,
            r@.command == command@,
            r@.args == args@.map_values(|a: &str| a@),
    {
        let mut owned: Vec<String> = Vec::new();
        let mut i: usize = 0;
        while i < args.len()
            invariant
                i <= args@.len(),
                owned@.len() == i,
                forall|j: int| 0 <= j < i ==> owned@[j]@ == args@[j]@,
            decreases args@.len() - i,
        {
            owned.push(args[i].to_string());
            i = i + 1;
        }
        assert(strings_view(owned@) =~= args@.map_values(|a: &str| a@));
        Command {
            username: user.username.clone(),
            user_id: user.user_id,
            command: command.to_string(),
            args: owned,
        }
    }
}

/// The Caesar shift by seven over the printable ASCII range `32..=126`,
/// applied to the low byte of a character.
pub open spec fn shift_up(c: char) -> char {
    let b = (c as u8) as int + 7;
    if b > 126 {
        (b - 95) as char
    } else {
        b as char
    }
}

/// The inverse shift of `shift_up`, applied to one byte.
pub open spec fn shift_down(b: u8) -> char {
    let d = b as int - 7;
    if d < 32 {
        (d + 95) as char
    } else {
        d as char
    }
}

/// Whether every character's low byte leaves room for the shift.
pub open spec fn encryptable(s: Seq<char>) -> bool {
    forall|i: int| 0 <= i < s.len() ==> (#[trigger] s[i] as u8) <= 248
}

/// Whether every byte is at least the key.
pub open spec fn decryptable(b: Seq<u8>) -> bool {
    forall|i: int| 0 <= i < b.len() ==> #[trigger] b[i] >= 7
}

/// Shifts each character of `message` forward by seven, wrapping past `~`.
pub fn encrypt(message: String) -> (r: String)
    requires
        encryptable(message@),
    ensures
        r@ == message@.map_values(|c: char| shift_up(c)),
{
    let s = message.as_str();
    let n = s.unicode_len();
    let mut encrypted = String::new();
    let mut i: usize = 0;
    while i < n
        invariant
            n == s@.len(),
            s@ == message@,
            encryptable(s@),
            i <= n,
            encrypted@ == s@.subrange(0, i as int).map_values(|c: char| shift_up(c)),
        decreases n - i,
    {
        let c = s.get_char(i);
        let mut new_c: u8 = c as u8 + 7;
        if new_c > 126 {
            new_c = new_c - 95;
        }
        push_char(&mut encrypted, new_c as char);
        assert(s@.subrange(0, i + 1) =~= s@.subrange(0, i as int).push(c));
        i = i + 1;
    }
    assert(s@.subrange(0, n as int) =~= s@);
    encrypted
}

/// Shifts each byte of `cipher` back by seven, wrapping below the space.
pub fn decrypt(cipher: &[u8]) -> (r: String)
    requires
        decryptable(cipher@),
    ensures
        r@ == cipher@.map_values(|b: u8| shift_down(b)),
{
    let mut decrypted = String::new();
    let mut i: usize = 0;
    while i < cipher.len()
        invariant
            i <= cipher@.len(),
            decryptable(cipher@),
            decrypted@ == cipher@.subrange(0, i as int).map_values(|b: u8| shift_down(b)),
        decreases cipher@.len() - i,
    {
        let c = cipher[i];
        let mut new_c: u8 = c - 7;
        if new_c < 32 {
            new_c = new_c + 95;
        }
        push_char(&mut decrypted, new_c as char);
        assert(cipher@.subrange(0, i + 1) =~= cipher@.subrange(0, i as int).push(c));
        i = i + 1;
    }
    assert(cipher@.subrange(0, cipher@.len() as int) =~= cipher@);
    decrypted
}

} // verus!
