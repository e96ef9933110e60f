use vstd::prelude::*;

use crate::message::{
    Command, CommandView, FileMessage, FileMessageView, TextMessage, TextMessageView, Timestamp,
};
use crate::registry::{
    entry_named, has_name, latest_named, lemma_registry_of, listing, names_unique, registry_of,
    upserted, FileRegistry,
};
use crate::stamp::{format_minute, minute_stamp, stamp_in_range};
use crate::user::User;

verus! {

/// How many messages the hub holds in flight for each subscriber.
pub const HUB_CAPACITY: usize = 16;

/// What a line turned out to be, by the first record shape it decodes as.
#[derive(Debug)]
pub enum Inbound {
    Command(Command),
    File(FileMessage),
    Text(TextMessage),
    /// A line that decodes as none of the shapes.
    Raw,
}

/// Picks the shape of a line read from a peer, trying command, then file,
/// then text; `Raw` where none decoded.
pub fn classify(
    command: Option<Command>,
    file: Option<FileMessage>,
    text: Option<TextMessage>,
) -> (r: Inbound)
    ensures
        command matches Some(c) ==> r == Inbound::Command(c),
        command is None && file is Some ==> r == Inbound::File(file->0),
        command is None && file is None && text is Some ==> r == Inbound::Text(text->0),
        command is None && file is None && text is None ==> r == Inbound::Raw,
{
    match command {
        Some(c) => Inbound::Command(c),
        None => match file {
            Some(f) => Inbound::File(f),
            None => match text {
                Some(t) => Inbound::Text(t),
                None => Inbound::Raw,
            },
        },
    }
}

/// Picks the shape of a line taken from the hub, trying text, then file;
/// `Raw` where neither decoded.
pub fn classify_hub(text: Option<TextMessage>, file: Option<FileMessage>) -> (r: Inbound)
    ensures
        text matches Some(t) ==> r == Inbound::Text(t),
        text is None && file is Some ==> r == Inbound::File(file->0),
        text is None && file is None ==> r == Inbound::Raw,
{
    match text {
        Some(t) => Inbound::Text(t),
        None => match file {
            Some(f) => Inbound::File(f),
            None => Inbound::Raw,
        },
    }
}

/// What a connection asks its surroundings to do.
#[derive(Debug)]
pub enum Action {
    /// Write this text to the connection's own peer.
    Reply(String),
    /// Write this file message, serialized as one line, to the connection's own peer.
    ReplyFile(FileMessage),
    /// Publish this line to the hub as it is.
    Publish(String),
    /// Publish this text message to the hub, serialized as one line.
    PublishText(TextMessage),
    /// Stop serving the connection: the peer closed its side.
    Close,
}

/// An action as contracts see it.
pub enum ActionView {
    Reply(Seq<char>),
    ReplyFile(FileMessageView),
    Publish(Seq<char>),
    PublishText(TextMessageView),
    Close,
}

impl View for Action {
    type V = ActionView;

    open spec fn view(&self) -> ActionView {
        match self {
            Action::Reply(s) => ActionView::Reply(s@),
            Action::ReplyFile(f) => ActionView::ReplyFile(f@),
            Action::Publish(s) => ActionView::Publish(s@),
            Action::PublishText(t) => ActionView::PublishText(t@),
            Action::Close => ActionView::Close,
        }
    }
}

/// The views of the actions, in order.
pub open spec fn actions_view(v: Seq<Action>) -> Seq<ActionView> {
    v.map_values(|a: Action| a@)
}

/// The line shown for a text message: its minute, its sender and its body.
pub open spec fn text_line(m: TextMessageView) -> Seq<char> {
    minute_stamp(m.created_at.secs as int) + " "@ + m.username + ": "@ + m.body
}

/// What a connection writes for a text message taken from the hub as
/// `line`: the shown line where chrono can place its instant, else the hub
/// line as it came.
pub open spec fn text_reply(m: TextMessageView, line: Seq<char>) -> Seq<ActionView> {
    if stamp_in_range(m.created_at.secs as int) {
        seq![ActionView::Reply(text_line(m))]
    } else {
        seq![ActionView::Reply(line)]
    }
}

/// What a connection writes for a line taken from the hub.
pub open spec fn hub_reply(line: Seq<char>, kind: Inbound) -> Seq<ActionView> {
    match kind {
        Inbound::File(_) => seq![],
        Inbound::Text(m) => text_reply(m@, line),
        _ => seq![ActionView::Reply(line)],
    }
}

/// The answer to a command, given the files the connection has observed.
pub open spec fn command_reply(files: Seq<FileMessageView>, c: CommandView) -> Seq<ActionView> {
    if c.command == "/recvinfo"@ {
        if files.len() == 0 {
            seq![ActionView::Reply("no files available\n"@)]
        } else {
            seq![ActionView::Reply(listing(files))]
        }
    } else if c.command == "/recvfile"@ {
        if c.args.len() > 0 && has_name(files, c.args[0]) {
            seq![
                ActionView::ReplyFile(entry_named(files, c.args[0])),
                ActionView::Reply("Ok\n"@),
            ]
        } else {
            seq![ActionView::Reply("file not found\n"@)]
        }
    } else {
        seq![]
    }
}

/// The state of one served connection.
pub struct ConnectionView {
    pub fallback_name: Seq<char>,
    pub fallback_id: uuid::Uuid,
    pub files: Seq<FileMessageView>,
}

/// A plain line from the peer, as a text message from the fallback identity.
pub open spec fn raw_text(st: ConnectionView, line: Seq<char>, now: Timestamp) -> TextMessageView {
    TextMessageView {
        username: st.fallback_name,
        user_id: st.fallback_id,
        body: line,
        created_at: now,
    }
}

/// The answer to a line read from the peer.
pub open spec fn line_reply(st: ConnectionView, line: Seq<char>, kind: Inbound, now: Timestamp) -> Seq<
    ActionView,
> {
    if line.len() == 0 {
        seq![ActionView::Close]
    } else {
        match kind {
            Inbound::Command(c) => command_reply(st.files, c@),
            Inbound::File(_) => seq![ActionView::Reply("Ok\n"@), ActionView::Publish(line)],
            Inbound::Text(_) => seq![ActionView::Publish(line)],
            Inbound::Raw => seq![ActionView::PublishText(raw_text(st, line, now))],
        }
    }
}

/// One connection as the server serves it: the identity given to a peer
/// that sends plain lines, and the files seen on the hub since it subscribed.
pub struct Connection {
    fallback: User,
    registry: FileRegistry,
}

impl View for Connection {
    type V = ConnectionView;

    closed spec fn view(&self) -> ConnectionView {
        ConnectionView {
            fallback_name: self.fallback.username@,
            fallback_id: self.fallback.user_id,
            files: self.registry@,
        }
    }
}

impl Connection {
    pub closed spec fn wf(&self) -> bool {
        self.registry.wf()
    }

    /// A fresh connection, with no files observed yet.
    pub fn new(fallback: User) -> (r: Connection)
        ensures
            r.wf(),
            r@.fallback_name == fallback.username@,
            r@.fallback_id == fallback.user_id,
            r@.files == Seq::<FileMessageView>::empty(),
    {
        Connection { fallback, registry: FileRegistry::new() }
    }

    /// The identity given to plain lines from this peer.
    pub fn fallback(&self) -> (r: &User)
        ensures
            r.username@ == self@.fallback_name,
            r.user_id == self@.fallback_id,
    {
        &self.fallback
    }

    fn answer_command(&self, c: &Command) -> (r: Vec<Action>)
        requires
            self.wf(),
        ensures
            actions_view(r@) == command_reply(self@.files, c@),
    {
        let mut out: Vec<Action> = Vec::new();
        if c.command == String::from_str("/recvinfo") {
            if self.registry.len() == 0 {
                out.push(Action::Reply(String::from_str("no files available\n")));
            } else {
                out.push(Action::Reply(self.registry.listing()));
            }
        } else if c.command == String::from_str("/recvfile") {
            let found = if c.args.len() > 0 {
                self.registry.lookup(&c.args[0])
            } else {
                None
            };
            match found {
                Some(f) => {
                    proof {
                        let name = c@.args[0];
                        let i = choose|i: int| 0 <= i < self@.files.len() && #[trigger] self@.files[i] == f@ && f@.file_name == name;
                        let k = choose|k: int| 0 <= k < self@.files.len() && #[trigger] self@.files[k].file_name == name;
                        assert(self@.files[i].file_name == name);
                        assert(i == k);
                    }
                    out.push(Action::ReplyFile(f.clone()));
                    out.push(Action::Reply(String::from_str("Ok\n")));
                },
                None => {
                    out.push(Action::Reply(String::from_str("file not found\n")));
                },
            }
        }
        assert(actions_view(out@) =~= command_reply(self@.files, c@));
        out
    }

    /// Handles one line read from the peer, `kind` being its shape. An
    /// empty line means that the peer closed its side. Commands are answered
    /// to this peer alone; a file message is acknowledged with `Ok` and, like
    /// a text message, goes to the hub as it came; any other line goes to the hub as a text message from the
    /// fallback identity, created at `now`. The connection's state is kept.
    pub fn on_peer_line(&mut self, line: String, kind: Inbound, now: Timestamp) -> (r: Vec<Action>)
        requires
            old(self).wf(),
        ensures
            final(self).wf(),
            final(self)@ == old(self)@,
            actions_view(r@) == line_reply(old(self)@, line@, kind, now),
    {
        let mut out: Vec<Action> = Vec::new();
        if line.as_str().is_empty() {
            out.push(Action::Close);
            assert(actions_view(out@) =~= line_reply(old(self)@, line@, kind, now));
            return out;
        }
        let ghost k = kind;
        match kind {
            Inbound::Command(c) => {
                out = self.answer_command(&c);
            },
            Inbound::File(_) => {
                out.push(Action::Reply(String::from_str("Ok\n")));
                out.push(Action::Publish(line));
            },
            Inbound::Text(_) => {
                out.push(Action::Publish(line));
            },
            Inbound::Raw => {
                let m = TextMessage::new(&self.fallback, line.as_str(), now);
                out.push(Action::PublishText(m));
            },
        }
        assert(actions_view(out@) =~= line_reply(old(self)@, line@, k, now));
        out
    }

    /// Handles one line taken from the hub, `kind` being its shape. A text
    /// message becomes exactly one line for the peer, `<minute> <sender>:
    /// <body>`, or the hub line as it came where chrono cannot hold its
    /// instant; a file message is recorded in the registry and not shown; any
    /// other line is written to the peer as it came.
    pub fn on_hub_line(&mut self, line: String, kind: Inbound) -> (r: Vec<Action>)
        requires
            old(self).wf(),
        ensures
            final(self).wf(),
            final(self)@ == (ConnectionView { files: hub_files(old(self)@.files, kind), ..old(self)@ }),
            actions_view(r@) == hub_reply(line@, kind),
    {
        let mut out: Vec<Action> = Vec::new();
        let ghost k = kind;
        match kind {
            Inbound::File(f) => {
                self.registry.upsert(f);
            },
            Inbound::Text(m) => {
                match format_minute(m.created_at.secs) {
                    Some(stamp) => {
                        let mut shown = stamp;
                        shown.append(" ");
                        shown.append(m.username.as_str());
                        shown.append(": ");
                        shown.append(m.body.as_str());
                        out.push(Action::Reply(shown));
                    },
                    None => {
                        out.push(Action::Reply(line));
                    },
                }
            },
            _ => {
                out.push(Action::Reply(line));
            },
        }
        assert(self@ =~= (ConnectionView { files: hub_files(old(self)@.files, k), ..old(self)@ }));
        assert(actions_view(out@) =~= hub_reply(line@, k));
        out
    }
}

/// The registry after a hub line of shape `kind`: a file message is
/// recorded, anything else leaves it as it was.
pub open spec fn hub_files(files: Seq<FileMessageView>, kind: Inbound) -> Seq<FileMessageView> {
    match kind {
        Inbound::File(f) => upserted(files, f@),
        _ => files,
    }
}

/// The files a connection has observed, after one more hub line of shape `kind`.
pub open spec fn observed_after(observed: Seq<FileMessageView>, kind: Inbound) -> Seq<FileMessageView> {
    match kind {
        Inbound::File(f) => observed.push(f@),
        _ => observed,
    }
}

/// A connection's registry is what it has observed on the hub: where it
/// was built from the files observed so far, a hub line leaves it built
/// from the files observed with that line.
pub proof fn lemma_observe(observed: Seq<FileMessageView>, kind: Inbound)
    ensures
        hub_files(registry_of(observed), kind) == registry_of(observed_after(observed, kind)),
{
    match kind {
        Inbound::File(f) => {
            assert(observed.push(f@).drop_last() =~= observed);
        },
        _ => {},
    }
}

/// `/recvfile <name>` finds a file only once the connection has observed a
/// file of that name on the hub, and then answers with the last one
/// observed and an acknowledgement; before that it answers "file not found".
pub proof fn lemma_recvfile_needs_observation(observed: Seq<FileMessageView>, c: CommandView)
    requires
        c.command == "/recvfile"@,
        c.args.len() > 0,
    ensures
        has_name(observed, c.args[0]) ==> command_reply(registry_of(observed), c) == seq![
            ActionView::ReplyFile(latest_named(observed, c.args[0])),
            ActionView::Reply("Ok\n"@),
        ],
        !has_name(observed, c.args[0]) ==> command_reply(registry_of(observed), c) == seq![
            ActionView::Reply("file not found\n"@),
        ],
{
    reveal_strlit("/recvfile");
    reveal_strlit("/recvinfo");
    assert("/recvfile"@[5] != "/recvinfo"@[5]);
    lemma_registry_of(observed, c.args[0]);
}

/// `/recvinfo` lists the connection's own registry, which holds one entry
/// for each file name the connection has observed on the hub and no
/// other; a connection that has observed none answers "no files available".
pub proof fn lemma_recvinfo_lists_observed(observed: Seq<FileMessageView>, c: CommandView)
    requires
        c.command == "/recvinfo"@,
    ensures
        observed.len() == 0 ==> command_reply(registry_of(observed), c) == seq![
            ActionView::Reply("no files available\n"@),
        ],
        observed.len() > 0 ==> command_reply(registry_of(observed), c) == seq![
            ActionView::Reply(listing(registry_of(observed))),
        ],
        names_unique(registry_of(observed)),
        forall|name: Seq<char>|
            #![trigger has_name(registry_of(observed), name)]
            has_name(registry_of(observed), name) <==> has_name(observed, name),
{
    lemma_registry_of(observed, seq![]);
    assert forall|name: Seq<char>|
        #![trigger has_name(registry_of(observed), name)]
        has_name(registry_of(observed), name) <==> has_name(observed, name) by {
        lemma_registry_of(observed, name);
    }
}

/// What a connection writes for text messages taken from the hub, each
/// with the hub line it came as, one after the other.
pub open spec fn text_deliveries(msgs: Seq<TextMessageView>, lines: Seq<Seq<char>>) -> Seq<ActionView>
    decreases msgs.len(),
{
    if msgs.len() == 0 {
        seq![]
    } else {
        text_deliveries(msgs.drop_last(), lines.drop_last()) + text_reply(msgs.last(), lines.last())
    }
}

/// A connection shown text messages `m1 .. mk` from the hub writes exactly
/// the lines `<minute> <sender>: <body>` of `m1 .. mk` to its peer, each
/// once and in that order, whatever files it holds; this needs only that
/// chrono can hold each message's instant.
pub proof fn lemma_text_delivery(msgs: Seq<TextMessageView>, lines: Seq<Seq<char>>)
    requires
        msgs.len() == lines.len(),
        forall|i: int| 0 <= i < msgs.len() ==> stamp_in_range(#[trigger] msgs[i].created_at.secs as int),
    ensures
        text_deliveries(msgs, lines) == msgs.map_values(|m: TextMessageView| ActionView::Reply(text_line(m))),
    decreases msgs.len(),
{
    if msgs.len() > 0 {
        let prev = msgs.drop_last();
        assert forall|i: int| 0 <= i < prev.len() implies stamp_in_range(#[trigger] prev[i].created_at.secs as int) by {
            assert(prev[i] == msgs[i]);
        }
        lemma_text_delivery(prev, lines.drop_last());
        assert(stamp_in_range(msgs[msgs.len() - 1].created_at.secs as int));
        assert(msgs.map_values(|m: TextMessageView| ActionView::Reply(text_line(m))) =~= prev.map_values(
            |m: TextMessageView| ActionView::Reply(text_line(m)),
        ) + seq![ActionView::Reply(text_line(msgs.last()))]);
    } else {
        assert(msgs.map_values(|m: TextMessageView| ActionView::Reply(text_line(m))) =~= seq![]);
    }
}

/// A plain line from a peer goes to the hub as one text message from that
/// connection's fallback identity, which no handler changes; every
/// subscriber then shows it under the fallback name.
pub proof fn lemma_raw_line_sender(
    st: ConnectionView,
    line: Seq<char>,
    now: Timestamp,
    relayed: Seq<char>,
)
    requires
        line.len() > 0,
        stamp_in_range(now.secs as int),
    ensures
        line_reply(st, line, Inbound::Raw, now) == seq![ActionView::PublishText(raw_text(st, line, now))],
        raw_text(st, line, now).username == st.fallback_name,
        raw_text(st, line, now).user_id == st.fallback_id,
        text_reply(raw_text(st, line, now), relayed) == seq![
            ActionView::Reply(minute_stamp(now.secs as int) + " "@ + st.fallback_name + ": "@ + line),
        ],
{
}

} // verus!
