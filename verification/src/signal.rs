//! The diagnostic signal: how the bootstrap reports warnings and errors
//! without stopping.
//!
//! The signal has two channels, one for warnings and one for errors. The
//! bootstrap writes messages to a channel; a worker per channel reads them
//! in the order they were written and renders each one, until it reads the
//! sentinel or its channel is closed.

use vstd::prelude::*;

use crate::style::{dressed, styled};

verus! {

/// The delay, in milliseconds, that a sender observes after each message so
/// that the rendering of the message is less likely to interleave with what
/// the sender prints next.
pub const SEND_DELAY_MILLISECONDS: u64 = 16;

/// The message that stops a worker.
pub const SENTINEL: &'static str = "terminated";

/// The text of the message that stops a worker.
pub open spec fn sentinel() -> Seq<char> {
    SENTINEL@
}

/// Whether `message` is the sentinel.
pub open spec fn is_sentinel(message: Seq<char>) -> bool {
    message == sentinel()
}

/// The texts of a sequence of strings.
pub open spec fn texts(strings: Seq<String>) -> Seq<Seq<char>> {
    Seq::new(strings.len(), |i: int| strings[i]@)
}

/// The number of messages of `sent` that come before the first sentinel:
/// the position of the first sentinel, or the length of `sent` when it holds
/// none.
pub open spec fn stop_index(sent: Seq<Seq<char>>) -> nat
    decreases sent.len(),
{
    if sent.len() == 0 || is_sentinel(sent[0]) {
        0
    } else {
        1 + stop_index(sent.drop_first())
    }
}

/// The messages of `sent` that a listening worker renders: those that come
/// before the first sentinel, in the order they were sent.
pub open spec fn delivered(sent: Seq<Seq<char>>) -> Seq<Seq<char>> {
    sent.take(stop_index(sent) as int)
}

/// Whether `sent` holds a sentinel.
pub open spec fn holds_sentinel(sent: Seq<Seq<char>>) -> bool {
    exists|i: int| 0 <= i < sent.len() && is_sentinel(#[trigger] sent[i])
}

/// `stop_index` is the position of the first sentinel.
pub proof fn lemma_stop_index(sent: Seq<Seq<char>>)
    ensures
        stop_index(sent) <= sent.len(),
        forall|i: int| 0 <= i < stop_index(sent) ==> !is_sentinel(#[trigger] sent[i]),
        stop_index(sent) < sent.len() ==> is_sentinel(sent[stop_index(sent) as int]),
        stop_index(sent) < sent.len() <==> holds_sentinel(sent),
    decreases sent.len(),
{
    if sent.len() == 0 || is_sentinel(sent[0]) {
    } else {
        let rest = sent.drop_first();
        lemma_stop_index(rest);
        assert forall|i: int| 0 <= i < stop_index(sent) implies !is_sentinel(#[trigger] sent[i]) by {
            if i > 0 {
                assert(sent[i] == rest[i - 1]);
            }
        }
        if stop_index(sent) < sent.len() {
            assert(sent[stop_index(sent) as int] == rest[stop_index(rest) as int]);
        }
        if holds_sentinel(sent) {
            let i = choose|i: int| 0 <= i < sent.len() && is_sentinel(#[trigger] sent[i]);
            assert(rest[i - 1] == sent[i]);
        }
    }
}

/// A message that is no sentinel, sent last, moves the first sentinel
/// nowhere; one sent to a sequence that holds no sentinel is delivered too.
pub proof fn lemma_stop_index_push(sent: Seq<Seq<char>>, message: Seq<char>)
    ensures
        stop_index(sent) < sent.len() ==> stop_index(sent.push(message)) == stop_index(sent),
        stop_index(sent) == sent.len() && is_sentinel(message) ==> stop_index(sent.push(message))
            == sent.len(),
        stop_index(sent) == sent.len() && !is_sentinel(message) ==> stop_index(sent.push(message))
            == sent.len() + 1,
    decreases sent.len(),
{
    let longer = sent.push(message);
    if sent.len() == 0 {
        assert(longer.drop_first() =~= Seq::<Seq<char>>::empty());
        assert(stop_index(longer.drop_first()) == 0);
        assert(longer[0] == message);
    } else if is_sentinel(sent[0]) {
        assert(longer[0] == sent[0]);
    } else {
        assert(longer[0] == sent[0]);
        assert(longer.drop_first() =~= sent.drop_first().push(message));
        lemma_stop_index_push(sent.drop_first(), message);
    }
}

/// What was delivered before a sentinel is all that is ever delivered:
/// whatever is sent after the sentinel changes nothing.
pub proof fn lemma_delivered_up_to_sentinel(before: Seq<Seq<char>>, after: Seq<Seq<char>>)
    ensures
        stop_index(before.push(sentinel()) + after) == stop_index(before),
        delivered(before.push(sentinel()) + after) == delivered(before),
    decreases before.len(),
{
    let sent = before.push(sentinel()) + after;
    if before.len() == 0 {
        assert(sent[0] == sentinel());
        assert(delivered(sent) =~= delivered(before));
    } else if is_sentinel(before[0]) {
        assert(sent[0] == before[0]);
        assert(delivered(sent) =~= delivered(before));
    } else {
        let rest = before.drop_first();
        assert(sent[0] == before[0]);
        lemma_delivered_up_to_sentinel(rest, after);
        assert(sent.drop_first() =~= rest.push(sentinel()) + after);
        lemma_stop_index(before);
        assert(delivered(sent) =~= delivered(before));
    }
}

/// A worker stops at the sentinel. Of the messages `before`, then the
/// sentinel, then the messages `after`, it renders what it renders of
/// `before` alone, and so nothing of `after`. If `before` holds no sentinel,
/// it renders `before`, all of it and in that order.
pub proof fn law_sentinel_stops_worker(before: Seq<Seq<char>>, after: Seq<Seq<char>>)
    ensures
        delivered(before.push(sentinel()) + after) == delivered(before),
        !holds_sentinel(before) ==> delivered(before.push(sentinel()) + after) == before,
{
    lemma_delivered_up_to_sentinel(before, after);
    if !holds_sentinel(before) {
        law_messages_rendered_in_order(before);
    }
}

/// Every message is rendered once, in the order it was sent, as long as no
/// sentinel was sent.
pub proof fn law_messages_rendered_in_order(sent: Seq<Seq<char>>)
    requires
        !holds_sentinel(sent),
    ensures
        delivered(sent) == sent,
{
    lemma_stop_index(sent);
    assert(sent.take(sent.len() as int) =~= sent);
}

/// The two channels of the signal.
#[derive(Debug, Clone, Copy, PartialEq, Eq, Hash, Structural)]
pub enum Channel {
    /// The channel of warnings.
    Warning,
    /// The channel of errors.
    Error,
}

/// The state of a worker.
#[derive(Debug, Clone, Copy, PartialEq, Eq, Hash, Structural)]
pub enum WorkerState {
    /// The worker waits for the next message of its channel.
    Listening,
    /// The worker has left its channel and reads no more of it.
    Stopped,
}

/// What a worker gets from its channel.
pub enum WorkerEvent {
    /// A message was read.
    Message(String),
    /// The channel is closed: its writer is gone and nothing is left to read.
    Disconnected,
}

/// What a worker does about an event.
pub enum WorkerAction {
    /// Render this message on the diagnostic output.
    Render(String),
    /// Do nothing.
    Nothing,
}

/// What a worker in `state` does next on `event`: a listening worker goes on
/// listening after a message that is no sentinel, and stops on the sentinel
/// and on a closed channel. A stopped worker stays stopped.
pub open spec fn next_state(state: WorkerState, event: WorkerEvent) -> WorkerState {
    match (state, event) {
        (WorkerState::Listening, WorkerEvent::Message(message)) => if is_sentinel(message@) {
            WorkerState::Stopped
        } else {
            WorkerState::Listening
        },
        _ => WorkerState::Stopped,
    }
}

/// The message that a worker in `state` renders on `event`, if any: a
/// listening worker renders every message but the sentinel, and a closed
/// channel is left without a last word.
pub open spec fn rendering(state: WorkerState, event: WorkerEvent) -> Option<Seq<char>> {
    match (state, event) {
        (WorkerState::Listening, WorkerEvent::Message(message)) => if is_sentinel(message@) {
            None
        } else {
            Some(message@)
        },
        _ => None,
    }
}

/// The word that opens the lines of a channel.
pub open spec fn label(channel: Channel) -> Seq<char> {
    match channel {
        Channel::Warning => "warning"@,
        Channel::Error => "error"@,
    }
}

/// A diagnostic line: the label, the application's name and version
/// between brackets, and the message.
pub open spec fn line_of(
    label: Seq<char>,
    name: Seq<char>,
    version: Seq<char>,
    message: Seq<char>,
) -> Seq<char> {
    label + "["@ + name + "@"@ + version + "]: "@ + message
}

/// Whether `line` is a diagnostic line whose four parts are dressings of
/// `label`, `name`, `version` and `message`.
pub open spec fn is_rendering_of(
    line: Seq<char>,
    label: Seq<char>,
    name: Seq<char>,
    version: Seq<char>,
    message: Seq<char>,
) -> bool {
    exists|l: Seq<char>, n: Seq<char>, v: Seq<char>, m: Seq<char>|
        dressed(l, label) && dressed(n, name) && dressed(v, version) && dressed(m, message) && line
            == #[trigger] line_of(l, n, v, m)
}

/// Puts the four parts of a diagnostic line together.
pub fn compose(label: &str, name: &str, version: &str, message: &str) -> (line: String)
    ensures
        line@ == line_of(label@, name@, version@, message@),
{
    String::from_str(label).concat("[").concat(name).concat("@").concat(version).concat(
        "]: ",
    ).concat(message)
}

/// The reader of one channel of the signal.
///
/// A reader is what a worker runs: it is handed what the worker gets from
/// the channel, one event at a time, and answers with what the worker has
/// to do.
pub struct LoggerReader {
    channel: Channel,
    name: String,
    version: String,
    state: WorkerState,
}

impl LoggerReader {
    /// The channel that the reader reads.
    pub closed spec fn channel(&self) -> Channel {
        self.channel
    }

    /// The application's name.
    pub closed spec fn name(&self) -> Seq<char> {
        self.name@
    }

    /// The application's version.
    pub closed spec fn version(&self) -> Seq<char> {
        self.version@
    }

    /// The state of the worker.
    pub closed spec fn state(&self) -> WorkerState {
        self.state
    }

    /// A reader of `channel` that listens, for the application of this name
    /// and version.
    pub fn new(channel: Channel, name: &str, version: &str) -> (reader: LoggerReader)
        ensures
            reader.channel() == channel,
            reader.name() == name@,
            reader.version() == version@,
            reader.state() == WorkerState::Listening,
    {
        LoggerReader {
            channel,
            name: String::from_str(name),
            version: String::from_str(version),
            state: WorkerState::Listening,
        }
    }

    /// Tells whether the worker still listens.
    pub fn is_listening(&self) -> (listening: bool)
        ensures
            listening == (self.state() == WorkerState::Listening),
    {
        match self.state {
            WorkerState::Listening => true,
            WorkerState::Stopped => false,
        }
    }

    /// Takes one event from the channel and says what to do about it.
    ///
    /// The sentinel and a closed channel stop the worker, and nothing is
    /// rendered for either. Any other message is to be rendered, and the
    /// worker goes on listening. A stopped worker renders nothing.
    pub fn receive(&mut self, event: WorkerEvent) -> (action: WorkerAction)
        ensures
            final(self).state() == next_state(old(self).state(), event),
            final(self).channel() == old(self).channel(),
            final(self).name() == old(self).name(),
            final(self).version() == old(self).version(),
            match rendering(old(self).state(), event) {
                Some(text) => action matches WorkerAction::Render(message) && message@ == text,
                None => action is Nothing,
            },
    {
        if !self.is_listening() {
            return WorkerAction::Nothing;
        }
        match event {
            WorkerEvent::Message(message) => {
                if message == String::from_str(SENTINEL) {
                    self.state = WorkerState::Stopped;
                    WorkerAction::Nothing
                } else {
                    WorkerAction::Render(message)
                }
            },
            WorkerEvent::Disconnected => {
                self.state = WorkerState::Stopped;
                WorkerAction::Nothing
            },
        }
    }

    /// Reads `messages` as they come from the channel, first to last, and
    /// returns those that are to be rendered, in the same order.
    ///
    /// A listening worker renders the messages that come before the first
    /// sentinel and stops there; it still listens afterwards if there was no
    /// sentinel. A stopped worker renders nothing.
    pub fn consume(&mut self, messages: Vec<String>) -> (rendered: Vec<String>)
        ensures
            final(self).channel() == old(self).channel(),
            final(self).name() == old(self).name(),
            final(self).version() == old(self).version(),
            old(self).state() == WorkerState::Listening ==> texts(rendered@) == delivered(
                texts(messages@),
            ),
            old(self).state() == WorkerState::Stopped ==> rendered@.len() == 0,
            final(self).state() == if old(self).state() == WorkerState::Listening && !holds_sentinel(
                texts(messages@),
            ) {
                WorkerState::Listening
            } else {
                WorkerState::Stopped
            },
    {
        let ghost sent = texts(messages@);
        let mut rendered: Vec<String> = Vec::new();
        let mut i: usize = 0;
        proof {
            assert(sent.take(0) =~= Seq::<Seq<char>>::empty());
            assert(texts(rendered@) =~= Seq::<Seq<char>>::empty());
        }
        while i < messages.len()
            invariant
                i <= messages.len(),
                sent == texts(messages@),
                self.channel() == old(self).channel(),
                self.name() == old(self).name(),
                self.version() == old(self).version(),
                old(self).state() == WorkerState::Stopped ==> self.state() == WorkerState::Stopped
                    && rendered@.len() == 0,
                old(self).state() == WorkerState::Listening ==> {
                    &&& texts(rendered@) == delivered(sent.take(i as int))
                    &&& self.state() == if holds_sentinel(sent.take(i as int)) {
                        WorkerState::Stopped
                    } else {
                        WorkerState::Listening
                    }
                },
            decreases messages.len() - i,
        {
            let message = messages[i].clone();
            let ghost seen = sent.take(i as int);
            let ghost before = texts(rendered@);
            proof {
                assert(sent.take(i + 1) =~= seen.push(message@));
                lemma_stop_index(seen);
                lemma_stop_index(seen.push(message@));
                lemma_stop_index_push(seen, message@);
            }
            let action = self.receive(WorkerEvent::Message(message));
            match action {
                WorkerAction::Render(text) => {
                    rendered.push(text);
                    proof {
                        assert(texts(rendered@) =~= before.push(message@));
                        assert(seen.push(message@).take(seen.len() as int + 1) =~= seen.push(message@));
                        assert(seen.take(seen.len() as int) =~= seen);
                    }
                },
                WorkerAction::Nothing => {
                    proof {
                        if old(self).state() == WorkerState::Listening {
                            assert(seen.push(message@).take(stop_index(seen) as int) =~= seen.take(
                                stop_index(seen) as int,
                            ));
                        }
                    }
                },
            }
            i += 1;
        }
        proof {
            assert(sent.take(messages.len() as int) =~= sent);
        }
        rendered
    }

    /// The line that renders `message` on this channel, without styling.
    pub fn line(&self, message: &str) -> (line: String)
        ensures
            line@ == line_of(label(self.channel()), self.name(), self.version(), message@),
    {
        match self.channel {
            Channel::Warning => compose("warning", self.name.as_str(), self.version.as_str(), message),
            Channel::Error => compose("error", self.name.as_str(), self.version.as_str(), message),
        }
    }

    /// The line that renders `message` on this channel, styled for a
    /// terminal: warnings in yellow and errors in red, the version in blue,
    /// and the message blinking.
    pub fn render(&self, message: &str) -> (line: String)
        ensures
            is_rendering_of(
                line@,
                label(self.channel()),
                self.name(),
                self.version(),
                message@,
            ),
    {
        let version = styled(self.version.as_str(), "blue");
        match self.channel {
            Channel::Warning => {
                let word = styled("warning", "yellow");
                let name = styled(self.name.as_str(), "yellow");
                let text = styled(message, "yellow.blink_fast");
                compose(word.as_str(), name.as_str(), version.as_str(), text.as_str())
            },
            Channel::Error => {
                let word = styled("error", "red");
                let name = styled(self.name.as_str(), "red");
                let text = styled(message, "red.blink_fast");
                compose(word.as_str(), name.as_str(), version.as_str(), text.as_str())
            },
        }
    }
}

/// What the bootstrap has written to the two channels of the signal and no
/// worker has been handed yet.
pub struct LoggerSignalView {
    /// The application's name.
    pub name: Seq<char>,
    /// The application's version.
    pub version: Seq<char>,
    /// The messages written to the channel of warnings, oldest first.
    pub warnings: Seq<Seq<char>>,
    /// The messages written to the channel of errors, oldest first.
    pub errors: Seq<Seq<char>>,
}

/// The writing end of the diagnostic signal.
///
/// Messages are kept in the order they were written, one queue per channel,
/// until they are taken out to be handed to the workers.
pub struct LoggerSignal {
    name: String,
    version: String,
    warnings: Vec<String>,
    errors: Vec<String>,
}

impl View for LoggerSignal {
    type V = LoggerSignalView;

    closed spec fn view(&self) -> LoggerSignalView {
        LoggerSignalView {
            name: self.name@,
            version: self.version@,
            warnings: texts(self.warnings@),
            errors: texts(self.errors@),
        }
    }
}

impl LoggerSignal {
    /// Creates the signal of the application of this name and version, with
    /// nothing written to it.
    pub fn create(application_name: &str, application_version: &str) -> (signal: LoggerSignal)
        ensures
            signal@.name == application_name@,
            signal@.version == application_version@,
            signal@.warnings == Seq::<Seq<char>>::empty(),
            signal@.errors == Seq::<Seq<char>>::empty(),
    {
        let signal = LoggerSignal {
            name: String::from_str(application_name),
            version: String::from_str(application_version),
            warnings: Vec::new(),
            errors: Vec::new(),
        };
        proof {
            assert(texts(signal.warnings@) =~= Seq::<Seq<char>>::empty());
            assert(texts(signal.errors@) =~= Seq::<Seq<char>>::empty());
        }
        signal
    }

    /// The name of the application.
    pub fn name(&self) -> (name: &str)
        ensures
            name@ == self@.name,
    {
        self.name.as_str()
    }

    /// The version of the application.
    pub fn version(&self) -> (version: &str)
        ensures
            version@ == self@.version,
    {
        self.version.as_str()
    }

    /// The warnings written so far and not taken out yet, oldest first.
    pub fn warnings(&self) -> (warnings: &Vec<String>)
        ensures
            texts(warnings@) == self@.warnings,
    {
        &self.warnings
    }

    /// The errors written so far and not taken out yet, oldest first.
    pub fn errors(&self) -> (errors: &Vec<String>)
        ensures
            texts(errors@) == self@.errors,
    {
        &self.errors
    }

    /// The reader that a worker of `channel` runs for this signal.
    pub fn reader(&self, channel: Channel) -> (reader: LoggerReader)
        ensures
            reader.channel() == channel,
            reader.name() == self@.name,
            reader.version() == self@.version,
            reader.state() == WorkerState::Listening,
    {
        LoggerReader::new(channel, self.name.as_str(), self.version.as_str())
    }

    /// Writes an error.
    pub fn send_error(&mut self, msg: &str)
        ensures
            final(self)@ == (LoggerSignalView { errors: old(self)@.errors.push(msg@), ..old(self)@ }),
    {
        let ghost before = texts(self.errors@);
        self.errors.push(String::from_str(msg));
        proof {
            assert(texts(self.errors@) =~= before.push(msg@));
        }
    }

    /// Writes a warning.
    pub fn send_warning(&mut self, msg: &str)
        ensures
            final(self)@ == (LoggerSignalView {
                warnings: old(self)@.warnings.push(msg@),
                ..old(self)@
            }),
    {
        let ghost before = texts(self.warnings@);
        self.warnings.push(String::from_str(msg));
        proof {
            assert(texts(self.warnings@) =~= before.push(msg@));
        }
    }

    /// Stops the signal: writes the sentinel to both channels. Whatever is
    /// written to a channel after it is never rendered.
    pub fn terminated(&mut self)
        ensures
            final(self)@ == (LoggerSignalView {
                warnings: old(self)@.warnings.push(sentinel()),
                errors: old(self)@.errors.push(sentinel()),
                ..old(self)@
            }),
    {
        self.send_error(SENTINEL);
        self.send_warning(SENTINEL);
    }

    /// Takes out the errors written so far, oldest first, to hand them to
    /// the worker of the channel of errors.
    pub fn take_errors(&mut self) -> (errors: Vec<String>)
        ensures
            texts(errors@) == old(self)@.errors,
            final(self)@ == (LoggerSignalView { errors: Seq::empty(), ..old(self)@ }),
    {
        let mut errors: Vec<String> = Vec::new();
        std::mem::swap(&mut errors, &mut self.errors);
        proof {
            assert(texts(self.errors@) =~= Seq::<Seq<char>>::empty());
        }
        errors
    }

    /// Takes out the warnings written so far, oldest first, to hand them to
    /// the worker of the channel of warnings.
    pub fn take_warnings(&mut self) -> (warnings: Vec<String>)
        ensures
            texts(warnings@) == old(self)@.warnings,
            final(self)@ == (LoggerSignalView { warnings: Seq::empty(), ..old(self)@ }),
    {
        let mut warnings: Vec<String> = Vec::new();
        std::mem::swap(&mut warnings, &mut self.warnings);
        proof {
            assert(texts(self.warnings@) =~= Seq::<Seq<char>>::empty());
        }
        warnings
    }
}

} // verus!
