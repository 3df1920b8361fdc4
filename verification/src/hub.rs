//! The server's side of an opened serial port: who may write, and what its readers are told.
use crate::error::CoreError;
#[allow(unused_imports)]
use crate::error::CoreErrorView;
#[allow(unused_imports)]
use crate::payload::{base64_text, encodable, encoded_bytes_come_back};
use crate::protocol::{SerialConfig, ServerFrame, Status};
#[allow(unused_imports)]
use crate::protocol::{SerialConfigView, ServerFrameView, StatusView};
use crate::text::concat;
use crate::writer::WriterLease;
#[allow(unused_imports)]
use crate::writer::{after_claim, after_release};
use vstd::prelude::*;

verus! {

/// A frame for the client that asked, and whether every reader of the port gets it too.
#[derive(Debug)]
pub struct HubReply {
    pub frame: ServerFrame,
    pub broadcast: bool,
}

/// A [`HubReply`] with its frame as a value of the model.
pub ghost struct HubReplyView {
    pub frame: ServerFrameView,
    pub broadcast: bool,
}

impl View for HubReply {
    type V = HubReplyView;

    open spec fn view(&self) -> HubReplyView {
        HubReplyView { frame: self.frame@, broadcast: self.broadcast }
    }
}

/// The frame that tells of a status.
pub open spec fn status_frame(status: StatusView) -> ServerFrameView {
    ServerFrameView::Status { status }
}

/// The answer to a client that claims the right to write: everyone learns of a new writer, and a
/// client that comes too late learns who was first.
pub open spec fn claim_reply(lease: Option<Seq<char>>, client: Seq<char>) -> HubReplyView {
    if lease is None || lease == Some(client) {
        HubReplyView {
            frame: status_frame(StatusView::WriterClaimed { client_id: client }),
            broadcast: true,
        }
    } else {
        HubReplyView {
            frame: status_frame(StatusView::ReadOnly { owner: lease }),
            broadcast: false,
        }
    }
}

/// The answer to a client that gives the right to write back: everyone learns that it is free, and
/// a client that does not hold it learns that.
pub open spec fn release_reply(lease: Option<Seq<char>>, client: Seq<char>) -> HubReplyView {
    if lease == Some(client) {
        HubReplyView { frame: status_frame(StatusView::WriterReleased), broadcast: true }
    } else if lease is None {
        HubReplyView {
            frame: status_frame(StatusView::ReadOnly { owner: None }),
            broadcast: false,
        }
    } else {
        HubReplyView {
            frame: ServerFrameView::Error {
                message: CoreErrorView::WriterNotOwned(client).message(),
            },
            broadcast: false,
        }
    }
}

/// The answer to a client that may not write.
pub open spec fn write_refusal() -> ServerFrameView {
    ServerFrameView::Error { message: "client does not own writer permission"@ }
}

/// The answer to a client whose bytes went to the port: that it may write, or the port's error,
/// which everyone learns.
pub open spec fn write_reply(client: Seq<char>, failure: Option<Seq<char>>) -> HubReplyView {
    match failure {
        None => HubReplyView {
            frame: status_frame(StatusView::WriterClaimed { client_id: client }),
            broadcast: false,
        },
        Some(cause) => HubReplyView {
            frame: status_frame(StatusView::Error { message: "serial write failed: "@ + cause }),
            broadcast: true,
        },
    }
}

/// Why an operation on a port failed, if it did.
pub open spec fn failure_view(outcome: Result<(), String>) -> Option<Seq<char>> {
    match outcome {
        Ok(()) => None,
        Err(cause) => Some(cause@),
    }
}

/// An opened serial port.
#[derive(Debug)]
pub struct SerialHub {
    config: SerialConfig,
    writer: WriterLease,
}

/// A [`SerialHub`]: its port, and who may write to it.
pub ghost struct SerialHubView {
    pub config: SerialConfigView,
    pub writer: Option<Seq<char>>,
}

impl View for SerialHub {
    type V = SerialHubView;

    closed spec fn view(&self) -> SerialHubView {
        SerialHubView { config: self.config@, writer: self.writer@ }
    }
}

impl SerialHub {
    /// A port that has just been opened, which nobody may write to yet, and the frame that tells of
    /// it.
    pub fn open(config: SerialConfig) -> (opened: (SerialHub, ServerFrame))
        ensures
            opened.0@ == (SerialHubView { config: config@, writer: None }),
            opened.1@ == status_frame(StatusView::SerialOpened { port: config@.port }),
    {
        let frame = ServerFrame::Status {
            status: Status::SerialOpened { port: config.port.clone() },
        };
        (SerialHub { config, writer: WriterLease::default() }, frame)
    }

    /// A client asks for the right to write.
    pub fn claim_writer(&mut self, client_id: &str) -> (reply: HubReply)
        ensures
            final(self)@ == (SerialHubView {
                writer: after_claim(old(self)@.writer, client_id@),
                ..old(self)@
            }),
            reply@ == claim_reply(old(self)@.writer, client_id@),
    {
        match self.writer.claim(client_id) {
            Ok(()) => HubReply {
                frame: ServerFrame::Status {
                    status: Status::WriterClaimed { client_id: client_id.to_owned() },
                },
                broadcast: true,
            },
            Err(CoreError::WriterAlreadyClaimed(owner)) => HubReply {
                frame: ServerFrame::Status { status: Status::ReadOnly { owner: Some(owner) } },
                broadcast: false,
            },
            Err(error) => HubReply {
                frame: ServerFrame::Error { message: error.message() },
                broadcast: false,
            },
        }
    }

    /// A client gives the right to write back.
    pub fn release_writer(&mut self, client_id: &str) -> (reply: HubReply)
        ensures
            final(self)@ == (SerialHubView {
                writer: after_release(old(self)@.writer, client_id@),
                ..old(self)@
            }),
            reply@ == release_reply(old(self)@.writer, client_id@),
    {
        match self.writer.release(client_id) {
            Ok(true) => HubReply {
                frame: ServerFrame::Status { status: Status::WriterReleased },
                broadcast: true,
            },
            Ok(false) => HubReply {
                frame: ServerFrame::Status { status: Status::ReadOnly { owner: None } },
                broadcast: false,
            },
            Err(error) => HubReply {
                frame: ServerFrame::Error { message: error.message() },
                broadcast: false,
            },
        }
    }

    /// A client has gone: the right to write is free if the client held it, and then every reader
    /// of the port gets the frame.
    pub fn cleanup_client(&mut self, client_id: &str) -> (broadcast: Option<ServerFrame>)
        ensures
            final(self)@ == (SerialHubView {
                writer: after_release(old(self)@.writer, client_id@),
                ..old(self)@
            }),
            broadcast is Some <==> old(self)@.writer == Some(client_id@),
            broadcast matches Some(frame) ==> frame@ == status_frame(StatusView::WriterReleased),
    {
        if self.writer.release_if_owner(client_id) {
            Some(ServerFrame::Status { status: Status::WriterReleased })
        } else {
            None
        }
    }

    /// Whether the client may write, and otherwise what to answer it.
    pub fn authorize_write(&self, client_id: &str) -> (verdict: Result<(), ServerFrame>)
        ensures
            verdict is Ok <==> self@.writer == Some(client_id@),
            verdict matches Err(frame) ==> frame@ == write_refusal(),
    {
        if self.writer.can_write(client_id) {
            Ok(())
        } else {
            Err(ServerFrame::Error { message: "client does not own writer permission".to_owned() })
        }
    }
}

/// The answer to a client whose bytes the port has taken, or failed to take.
pub fn finish_write(client_id: &str, outcome: Result<(), String>) -> (reply: HubReply)
    ensures
        reply@ == write_reply(client_id@, failure_view(outcome)),
{
    match outcome {
        Ok(()) => HubReply {
            frame: ServerFrame::Status {
                status: Status::WriterClaimed { client_id: client_id.to_owned() },
            },
            broadcast: false,
        },
        Err(cause) => HubReply {
            frame: ServerFrame::Status {
                status: Status::Error { message: concat("serial write failed: ", &cause) },
            },
            broadcast: true,
        },
    }
}

/// What came of reading from a port.
#[derive(Debug)]
pub enum ReadOutcome {
    /// These bytes, perhaps none.
    Read(Vec<u8>),
    /// Nothing came in time.
    TimedOut,
    /// The port reported the error given.
    Failed(String),
}

/// A [`ReadOutcome`] with its bytes and its error text as sequences.
pub ghost enum ReadOutcomeView {
    Read(Seq<u8>),
    TimedOut,
    Failed(Seq<char>),
}

impl View for ReadOutcome {
    type V = ReadOutcomeView;

    open spec fn view(&self) -> ReadOutcomeView {
        match self {
            ReadOutcome::Read(bytes) => ReadOutcomeView::Read(bytes@),
            ReadOutcome::TimedOut => ReadOutcomeView::TimedOut,
            ReadOutcome::Failed(cause) => ReadOutcomeView::Failed(cause@),
        }
    }
}

/// What the reader of a port does next.
#[derive(Debug)]
pub enum ReaderStep {
    /// Reads on.
    Continue,
    /// Hands the frame to every reader of the port, and reads on.
    Broadcast(ServerFrame),
    /// Hands the two frames to every reader of the port, in this order, and stops.
    Stop(ServerFrame, ServerFrame),
}

/// A [`ReaderStep`] with its frames as values of the model.
pub ghost enum ReaderStepView {
    Continue,
    Broadcast(ServerFrameView),
    Stop(ServerFrameView, ServerFrameView),
}

impl View for ReaderStep {
    type V = ReaderStepView;

    open spec fn view(&self) -> ReaderStepView {
        match self {
            ReaderStep::Continue => ReaderStepView::Continue,
            ReaderStep::Broadcast(frame) => ReaderStepView::Broadcast(frame@),
            ReaderStep::Stop(error, closed) => ReaderStepView::Stop(error@, closed@),
        }
    }
}

/// What the reader of a port does next: bytes go to every reader of the port, silence is ignored,
/// and an error ends the reading.
pub open spec fn next_reader_step(port: Seq<char>, outcome: ReadOutcomeView) -> ReaderStepView {
    match outcome {
        ReadOutcomeView::Read(bytes) => if bytes.len() == 0 {
            ReaderStepView::Continue
        } else {
            ReaderStepView::Broadcast(
                ServerFrameView::SerialData { port, data: base64_text(bytes) },
            )
        },
        ReadOutcomeView::TimedOut => ReaderStepView::Continue,
        ReadOutcomeView::Failed(cause) => ReaderStepView::Stop(
            status_frame(
                StatusView::Error { message: "serial read failed on "@ + port + ": "@ + cause },
            ),
            status_frame(StatusView::SerialClosed { port }),
        ),
    }
}

/// What the reader of a port does after one attempt to read. The frame for some bytes gives the
/// bytes back.
pub fn reader_step(port: &str, outcome: ReadOutcome) -> (step: ReaderStep)
    requires
        outcome matches ReadOutcome::Read(bytes) ==> encodable(bytes@.len()),
    ensures
        step@ == next_reader_step(port@, outcome@),
        step matches ReaderStep::Broadcast(frame) ==> {
            &&& outcome@ matches ReadOutcomeView::Read(bytes)
            &&& frame@.serial_bytes() == Some(bytes)
        },
{
    match outcome {
        ReadOutcome::Read(bytes) => {
            if bytes.len() == 0 {
                ReaderStep::Continue
            } else {
                ReaderStep::Broadcast(ServerFrame::serial_data(port, bytes.as_slice()))
            }
        },
        ReadOutcome::TimedOut => ReaderStep::Continue,
        ReadOutcome::Failed(cause) => {
            let mut message = concat("serial read failed on ", port);
            message.append(": ");
            message.append(&cause);
            ReaderStep::Stop(
                ServerFrame::Status { status: Status::Error { message } },
                ServerFrame::Status { status: Status::SerialClosed { port: port.to_owned() } },
            )
        },
    }
}

/// The frames that the readers of a port get in a run of reads: those of each read in turn, until a
/// read fails.
pub open spec fn frames_of_reads(port: Seq<char>, reads: Seq<ReadOutcomeView>) -> Seq<
    ServerFrameView,
>
    decreases reads.len(),
{
    if reads.len() == 0 {
        seq![]
    } else {
        match next_reader_step(port, reads[0]) {
            ReaderStepView::Continue => frames_of_reads(port, reads.skip(1)),
            ReaderStepView::Broadcast(frame) => seq![frame] + frames_of_reads(port, reads.skip(1)),
            ReaderStepView::Stop(failed, closed) => seq![failed, closed],
        }
    }
}

/// The bytes that came in a run of reads, in order.
pub open spec fn bytes_of_reads(reads: Seq<ReadOutcomeView>) -> Seq<u8>
    decreases reads.len(),
{
    if reads.len() == 0 {
        seq![]
    } else {
        (match reads[0] {
            ReadOutcomeView::Read(bytes) => bytes,
            _ => seq![],
        }) + bytes_of_reads(reads.skip(1))
    }
}

/// The serial bytes that some frames carry, in order.
pub open spec fn bytes_of_frames(frames: Seq<ServerFrameView>) -> Seq<u8>
    decreases frames.len(),
{
    if frames.len() == 0 {
        seq![]
    } else {
        (match frames[0].serial_bytes() {
            Some(bytes) => bytes,
            None => seq![],
        }) + bytes_of_frames(frames.skip(1))
    }
}

/// Whether no read of a run fails.
pub open spec fn no_failure(reads: Seq<ReadOutcomeView>) -> bool {
    forall|i: int| 0 <= i < reads.len() ==> !((#[trigger] reads[i]) is Failed)
}

/// As long as no read fails, the readers of a port get the bytes that were read, all of them and in
/// order, and nothing else.
pub proof fn readers_get_the_bytes_read(port: Seq<char>, reads: Seq<ReadOutcomeView>)
    requires
        no_failure(reads),
    ensures
        bytes_of_frames(frames_of_reads(port, reads)) == bytes_of_reads(reads),
        forall|k: int|
            0 <= k < frames_of_reads(port, reads).len() ==> {
                &&& (#[trigger] frames_of_reads(port, reads)[k]) matches ServerFrameView::SerialData {
                    port: told,
                    ..
                }
                &&& told == port
            },
    decreases reads.len(),
{
    if reads.len() > 0 {
        let rest = reads.skip(1);
        let frames = frames_of_reads(port, rest);
        let all = frames_of_reads(port, reads);
        assert(!(reads[0] is Failed));
        assert forall|i: int| 0 <= i < rest.len() implies !((#[trigger] rest[i]) is Failed) by {
            assert(rest[i] == reads[i + 1]);
        }
        readers_get_the_bytes_read(port, rest);
        if let ReaderStepView::Broadcast(frame) = next_reader_step(port, reads[0]) {
            encoded_bytes_come_back(reads[0]->Read_0);
            assert(all.skip(1) =~= frames);
            assert forall|k: int| 0 <= k < all.len() implies {
                &&& (#[trigger] all[k]) matches ServerFrameView::SerialData { port: told, .. }
                &&& told == port
            } by {
                if k > 0 {
                    assert(all[k] == frames[k - 1]);
                }
            }
        } else {
            assert(bytes_of_reads(reads) =~= bytes_of_reads(rest));
        }
    }
}

/// The first read that fails ends a run: after what was read before it, the readers of the port get
/// the error and that the port is closed, and then nothing, whatever a later read would have given.
pub proof fn the_first_failure_ends_the_reading(
    port: Seq<char>,
    before: Seq<ReadOutcomeView>,
    cause: Seq<char>,
    after: Seq<ReadOutcomeView>,
)
    requires
        no_failure(before),
    ensures
        frames_of_reads(port, before + seq![ReadOutcomeView::Failed(cause)] + after)
            == frames_of_reads(port, before) + seq![
            status_frame(
                StatusView::Error { message: "serial read failed on "@ + port + ": "@ + cause },
            ),
            status_frame(StatusView::SerialClosed { port }),
        ],
    decreases before.len(),
{
    let reads = before + seq![ReadOutcomeView::Failed(cause)] + after;
    if before.len() == 0 {
        assert(reads[0] == ReadOutcomeView::Failed(cause));
    } else {
        let rest = before.skip(1);
        assert(!(before[0] is Failed));
        assert(reads[0] == before[0]);
        assert(reads.skip(1) =~= rest + seq![ReadOutcomeView::Failed(cause)] + after);
        assert forall|i: int| 0 <= i < rest.len() implies !((#[trigger] rest[i]) is Failed) by {
            assert(rest[i] == before[i + 1]);
        }
        the_first_failure_ends_the_reading(port, rest, cause, after);
    }
}

/// The frame of a status holds that status, and a reply is seen as it is.
pub proof fn a_reply_is_seen_whole(status: StatusView, reply: HubReply)
    ensures
        status_frame(status) == (ServerFrameView::Status { status }),
        reply@.frame == reply.frame@,
        reply@.broadcast == reply.broadcast,
{
}

/// The outcome of a read, and what the reader does, are seen with everything that they hold.
pub proof fn a_read_is_seen_whole(
    bytes: Vec<u8>,
    cause: String,
    frame: ServerFrame,
    next: ServerFrame,
)
    ensures
        ReadOutcome::Read(bytes)@ == ReadOutcomeView::Read(bytes@),
        ReadOutcome::TimedOut@ is TimedOut,
        ReadOutcome::Failed(cause)@ == ReadOutcomeView::Failed(cause@),
        ReaderStep::Continue@ is Continue,
        ReaderStep::Broadcast(frame)@ == ReaderStepView::Broadcast(frame@),
        ReaderStep::Stop(frame, next)@ == ReaderStepView::Stop(frame@, next@),
        failure_view(Ok(())) == None::<Seq<char>>,
        failure_view(Err(cause)) == Some(cause@),
{
}

/// The answer to a claim names who may write after it. Everyone hears it if that is the client that
/// claimed, and otherwise the client alone hears that it may only read.
pub proof fn a_claim_names_the_writer(lease: Option<Seq<char>>, client: Seq<char>)
    ensures
        ({
            let writer = after_claim(lease, client);
            let reply = claim_reply(lease, client);
            &&& reply.broadcast <==> writer == Some(client)
            &&& reply.frame matches ServerFrameView::Status { status }
            &&& match status {
                StatusView::WriterClaimed { client_id } => reply.broadcast && Some(client_id)
                    == writer,
                StatusView::ReadOnly { owner } => !reply.broadcast && owner == writer,
                _ => false,
            }
        }),
{
}

/// The answer to a release tells everyone exactly of a right that it has freed. A client that gave
/// nothing back hears that nobody may write, or, if another client may, that the right is not its.
pub proof fn a_release_tells_of_a_freed_right(lease: Option<Seq<char>>, client: Seq<char>)
    ensures
        ({
            let reply = release_reply(lease, client);
            let freed = lease is Some && after_release(lease, client) is None;
            &&& reply.broadcast <==> freed
            &&& match reply.frame {
                ServerFrameView::Status { status: StatusView::WriterReleased } => freed,
                ServerFrameView::Status { status: StatusView::ReadOnly { owner } } => lease is None
                    && owner is None,
                ServerFrameView::Error { message } => {
                    &&& lease is Some
                    &&& !freed
                    &&& message == "writer is not owned by "@ + client
                },
                _ => false,
            }
        }),
{
}

/// The answer to a write names the client if the port took the bytes. If it did not, everyone hears
/// the port's own error.
pub proof fn a_write_tells_what_the_port_said(client: Seq<char>, cause: Seq<char>)
    ensures
        write_reply(client, None).frame == (ServerFrameView::Status {
            status: StatusView::WriterClaimed { client_id: client },
        }),
        !write_reply(client, None).broadcast,
        write_reply(client, Some(cause)).frame == (ServerFrameView::Status {
            status: StatusView::Error { message: "serial write failed: "@ + cause },
        }),
        write_reply(client, Some(cause)).broadcast,
{
}

/// One read gives one frame with exactly the bytes read, if there are any; silence gives none, and
/// only a failure stops the reader.
pub proof fn one_read_gives_one_frame(port: Seq<char>, outcome: ReadOutcomeView)
    ensures
        match next_reader_step(port, outcome) {
            ReaderStepView::Broadcast(frame) => {
                &&& outcome matches ReadOutcomeView::Read(bytes)
                &&& bytes.len() > 0
                &&& frame.serial_bytes() == Some(bytes)
                &&& frame->SerialData_port == port
            },
            ReaderStepView::Continue => outcome is TimedOut || (
            outcome matches ReadOutcomeView::Read(bytes) && bytes.len() == 0),
            ReaderStepView::Stop(_, _) => outcome is Failed,
        },
{
    if let ReadOutcomeView::Read(bytes) = outcome {
        encoded_bytes_come_back(bytes);
    }
}

/// The readers of a port get one frame for each read that gave bytes, and none for the others.
pub proof fn each_read_is_told_once(port: Seq<char>, reads: Seq<ReadOutcomeView>)
    requires
        no_failure(reads),
    ensures
        frames_of_reads(port, reads).len() == reads.filter(
            |read: ReadOutcomeView| read matches ReadOutcomeView::Read(bytes) && bytes.len() > 0,
        ).len(),
    decreases reads.len(),
{
    let told = |read: ReadOutcomeView|
        read matches ReadOutcomeView::Read(bytes) && bytes.len() > 0;
    if reads.len() == 0 {
        reveal(Seq::filter);
    } else {
        let rest = reads.skip(1);
        assert forall|i: int| 0 <= i < rest.len() implies !((#[trigger] rest[i]) is Failed) by {
            assert(rest[i] == reads[i + 1]);
        }
        assert(!(reads[0] is Failed));
        each_read_is_told_once(port, rest);
        assert(reads =~= seq![reads[0]] + rest);
        Seq::filter_distributes_over_add(seq![reads[0]], rest, told);
        assert(seq![reads[0]].filter(told).len() == if told(reads[0]) {
            1nat
        } else {
            0nat
        }) by {
            reveal(Seq::filter);
            assert(seq![reads[0]].drop_last() =~= seq![]);
            assert(seq![reads[0]].drop_last().filter(told).len() == 0);
        }
    }
}

} // verus!
