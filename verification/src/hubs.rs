//! The ports that a server has opened: one hub for each configuration.
use crate::error::CoreError;
use crate::hub::{HubReply, SerialHub};
#[allow(unused_imports)]
use crate::hub::{SerialHubView, claim_reply, release_reply, status_frame, write_refusal};
use crate::protocol::{SerialConfig, ServerFrame};
#[allow(unused_imports)]
use crate::protocol::{SerialConfigView, ServerFrameView, StatusView, service_key_is_injective};
use crate::text::same_text;
#[allow(unused_imports)]
use crate::writer::{after_claim, after_release};
use vstd::prelude::*;

verus! {

/// A frame for every reader of a port.
#[derive(Debug)]
pub struct Broadcast {
    pub hub: usize,
    pub frame: ServerFrame,
}

/// A [`Broadcast`] with its frame as a value of the model.
pub ghost struct BroadcastView {
    pub hub: int,
    pub frame: ServerFrameView,
}

impl View for Broadcast {
    type V = BroadcastView;

    open spec fn view(&self) -> BroadcastView {
        BroadcastView { hub: self.hub as int, frame: self.frame@ }
    }
}

/// Broadcasts with their frames as values of the model.
pub open spec fn broadcasts_view(broadcasts: Seq<Broadcast>) -> Seq<BroadcastView> {
    broadcasts.map_values(|broadcast: Broadcast| broadcast@)
}

/// The hub of a configuration, and the frame that tells of the port if it has just been opened.
#[derive(Debug)]
pub struct OpenedHub {
    pub hub: usize,
    pub announcement: Option<ServerFrame>,
}

/// The hubs of a server, each found by the key of its configuration.
#[derive(Debug)]
pub struct HubTable {
    keys: Vec<String>,
    hubs: Vec<SerialHub>,
}

impl View for HubTable {
    type V = Seq<SerialHubView>;

    closed spec fn view(&self) -> Seq<SerialHubView> {
        self.hubs@.map_values(|hub: SerialHub| hub@)
    }
}

/// Whether some hub has the configuration.
pub open spec fn has_hub(hubs: Seq<SerialHubView>, config: SerialConfigView) -> bool {
    exists|i: int| 0 <= i < hubs.len() && (#[trigger] hubs[i]).config == config
}

/// The hubs with another client, or nobody, writing to one of them.
pub open spec fn with_writer(hubs: Seq<SerialHubView>, hub: int, writer: Option<Seq<char>>) -> Seq<
    SerialHubView,
> {
    hubs.update(hub, SerialHubView { writer, ..hubs[hub] })
}

/// The hubs after a client has gone: none of them is the client's to write to.
pub open spec fn after_disconnect(hubs: Seq<SerialHubView>, client: Seq<char>) -> Seq<
    SerialHubView,
> {
    hubs.map_values(
        |hub: SerialHubView| SerialHubView { writer: after_release(hub.writer, client), ..hub },
    )
}

/// What the readers are told when a client goes: of each port that the client could write to, that
/// nobody can now.
pub open spec fn disconnect_broadcasts(hubs: Seq<SerialHubView>, client: Seq<char>) -> Seq<
    BroadcastView,
>
    decreases hubs.len(),
{
    if hubs.len() == 0 {
        seq![]
    } else {
        let before = disconnect_broadcasts(hubs.drop_last(), client);
        if hubs.last().writer == Some(client) {
            before.push(
                BroadcastView {
                    hub: hubs.len() - 1,
                    frame: status_frame(StatusView::WriterReleased),
                },
            )
        } else {
            before
        }
    }
}

impl HubTable {
    /// Every hub is found by its key, and no two hubs have the same configuration.
    pub closed spec fn wf(&self) -> bool {
        &&& self.keys.len() == self.hubs.len()
        &&& forall|i: int|
            0 <= i < self.keys.len() ==> (#[trigger] self.keys[i])@
                == self.hubs[i]@.config.service_key()
        &&& forall|i: int, j: int|
            0 <= i < j < self.hubs.len() ==> (#[trigger] self.hubs[i])@.config != (
            #[trigger] self.hubs[j])@.config
    }

    /// No port is open.
    pub fn new() -> (table: Self)
        ensures
            table.wf(),
            table@ == Seq::<SerialHubView>::empty(),
    {
        let table = HubTable { keys: Vec::new(), hubs: Vec::new() };
        assert(table@ =~= Seq::<SerialHubView>::empty());
        table
    }

    /// The number of hubs.
    pub fn len(&self) -> (len: usize)
        ensures
            len == self@.len(),
    {
        self.hubs.len()
    }

    /// The hub of a configuration.
    pub fn find(&self, config: &SerialConfig) -> (found: Option<usize>)
        requires
            self.wf(),
        ensures
            found is Some <==> has_hub(self@, config@),
            found matches Some(hub) ==> hub < self@.len() && self@[hub as int].config == config@,
    {
        let key = config.service_key();
        let mut i: usize = 0;
        while i < self.keys.len()
            invariant
                self.wf(),
                i <= self.keys.len(),
                key@ == config@.service_key(),
                forall|j: int| 0 <= j < i ==> (#[trigger] self@[j]).config != config@,
            decreases self.keys.len() - i,
        {
            proof {
                service_key_is_injective(self.hubs[i as int]@.config, config@);
            }
            assert(self@[i as int] == self.hubs[i as int]@);
            if same_text(&self.keys[i], &key) {
                return Some(i);
            }
            i += 1;
        }
        None
    }

    /// The hub of a configuration: the one that there is, or else a new one if the port could be
    /// opened. `opened` is what came of opening the port, and is not looked at if there is a hub.
    pub fn get_or_open_hub(&mut self, config: SerialConfig, opened: Result<(), CoreError>) -> (outcome:
        Result<OpenedHub, CoreError>)
        requires
            old(self).wf(),
        ensures
            final(self).wf(),
            outcome is Ok <==> has_hub(old(self)@, config@) || opened is Ok,
            outcome matches Ok(open) ==> {
                &&& open.hub < final(self)@.len()
                &&& final(self)@[open.hub as int].config == config@
            },
            has_hub(old(self)@, config@) ==> {
                &&& final(self)@ == old(self)@
                &&& outcome matches Ok(open) ==> open.announcement is None
            },
            !has_hub(old(self)@, config@) ==> match outcome {
                Ok(open) => {
                    &&& final(self)@ == old(self)@.push(
                        SerialHubView { config: config@, writer: None },
                    )
                    &&& open.announcement matches Some(frame)
                    &&& frame@ == status_frame(StatusView::SerialOpened { port: config@.port })
                },
                Err(error) => {
                    &&& final(self)@ == old(self)@
                    &&& opened == Err::<(), CoreError>(error)
                },
            },
    {
        match self.find(&config) {
            Some(hub) => Ok(OpenedHub { hub, announcement: None }),
            None => match opened {
                Ok(()) => {
                    let hub = self.hubs.len();
                    let key = config.service_key();
                    let (opened_hub, frame) = SerialHub::open(config);
                    proof {
                        assert forall|i: int| 0 <= i < self.hubs.len() implies (
                        #[trigger] self.hubs[i])@.config != config@ by {
                            assert(self@[i] == self.hubs[i]@);
                        }
                    }
                    self.keys.push(key);
                    self.hubs.push(opened_hub);
                    assert(self@ =~= old(self)@.push(
                        SerialHubView { config: config@, writer: None },
                    ));
                    Ok(OpenedHub { hub, announcement: Some(frame) })
                },
                Err(error) => Err(error),
            },
        }
    }

    /// A client asks for the right to write to a port.
    pub fn claim_writer(&mut self, hub: usize, client_id: &str) -> (reply: HubReply)
        requires
            old(self).wf(),
            hub < old(self)@.len(),
        ensures
            final(self).wf(),
            final(self)@ == with_writer(
                old(self)@,
                hub as int,
                after_claim(old(self)@[hub as int].writer, client_id@),
            ),
            reply@ == claim_reply(old(self)@[hub as int].writer, client_id@),
    {
        assert(self@[hub as int] == self.hubs[hub as int]@);
        self.hubs[hub].claim_writer(client_id)
    }

    /// A client gives the right to write to a port back.
    pub fn release_writer(&mut self, hub: usize, client_id: &str) -> (reply: HubReply)
        requires
            old(self).wf(),
            hub < old(self)@.len(),
        ensures
            final(self).wf(),
            final(self)@ == with_writer(
                old(self)@,
                hub as int,
                after_release(old(self)@[hub as int].writer, client_id@),
            ),
            reply@ == release_reply(old(self)@[hub as int].writer, client_id@),
    {
        assert(self@[hub as int] == self.hubs[hub as int]@);
        self.hubs[hub].release_writer(client_id)
    }

    /// Whether the client may write to a port, and otherwise what to answer it.
    pub fn authorize_write(&self, hub: usize, client_id: &str) -> (verdict: Result<(), ServerFrame>)
        requires
            hub < self@.len(),
        ensures
            verdict is Ok <==> self@[hub as int].writer == Some(client_id@),
            verdict matches Err(frame) ==> frame@ == write_refusal(),
    {
        assert(self@[hub as int] == self.hubs[hub as int]@);
        self.hubs[hub].authorize_write(client_id)
    }

    /// A client has gone: whatever it held the right to write to is free, and the readers of those
    /// ports are told.
    pub fn disconnect(&mut self, client_id: &str) -> (broadcasts: Vec<Broadcast>)
        requires
            old(self).wf(),
        ensures
            final(self).wf(),
            final(self)@ == after_disconnect(old(self)@, client_id@),
            broadcasts_view(broadcasts@) == disconnect_broadcasts(old(self)@, client_id@),
    {
        let mut broadcasts: Vec<Broadcast> = Vec::new();
        let mut i: usize = 0;
        let ghost before = self@;
        assert(before.take(0) =~= seq![]);
        assert(broadcasts_view(broadcasts@) =~= seq![]);
        while i < self.hubs.len()
            invariant
                self.wf(),
                i <= self.hubs.len(),
                self@.len() == before.len(),
                self.hubs.len() == before.len(),
                before == old(self)@,
                forall|j: int|
                    0 <= j < i ==> (#[trigger] self@[j]) == after_disconnect(before, client_id@)[j],
                forall|j: int| i <= j < before.len() ==> (#[trigger] self@[j]) == before[j],
                broadcasts_view(broadcasts@) == disconnect_broadcasts(
                    before.take(i as int),
                    client_id@,
                ),
            decreases self.hubs.len() - i,
        {
            let ghost told = broadcasts@;
            let ghost now = self@;
            assert(self@[i as int] == self.hubs[i as int]@);
            let broadcast = self.hubs[i].cleanup_client(client_id);
            assert(self@ =~= with_writer(
                now,
                i as int,
                after_release(before[i as int].writer, client_id@),
            ));
            assert(before.take(i + 1).drop_last() =~= before.take(i as int));
            assert(before.take(i + 1).last() == before[i as int]);
            if let Some(frame) = broadcast {
                broadcasts.push(Broadcast { hub: i, frame });
                assert(broadcasts_view(broadcasts@) =~= broadcasts_view(told).push(
                    BroadcastView {
                        hub: i as int,
                        frame: status_frame(StatusView::WriterReleased),
                    },
                ));
            }
            i += 1;
        }
        assert(before.take(i as int) =~= before);
        assert(self@ =~= after_disconnect(before, client_id@));
        broadcasts
    }
}

/// Each configuration has one hub: two hubs with the same configuration are the same hub.
pub proof fn one_hub_per_configuration(table: HubTable, i: int, j: int)
    requires
        table.wf(),
        0 <= i < table@.len(),
        0 <= j < table@.len(),
        table@[i].config == table@[j].config,
    ensures
        i == j,
{
    assert(table@[i] == table.hubs[i]@);
    assert(table@[j] == table.hubs[j]@);
}

/// A client that has gone can write to no port, and whoever else could write still can.
pub proof fn disconnect_frees_every_port(hubs: Seq<SerialHubView>, client: Seq<char>, i: int)
    requires
        0 <= i < hubs.len(),
    ensures
        after_disconnect(hubs, client).len() == hubs.len(),
        after_disconnect(hubs, client)[i].config == hubs[i].config,
        after_disconnect(hubs, client)[i].writer != Some(client),
        hubs[i].writer == Some(client) ==> after_disconnect(hubs, client)[i].writer is None,
        hubs[i].writer != Some(client) ==> after_disconnect(hubs, client)[i] == hubs[i],
{
}

/// The readers of a port are told that nobody can write any more exactly if the client that has
/// gone could, and are told nothing else.
pub proof fn disconnect_tells_of_freed_ports(hubs: Seq<SerialHubView>, client: Seq<char>, i: int)
    requires
        0 <= i < hubs.len(),
    ensures
        hubs[i].writer == Some(client) <==> exists|k: int|
            0 <= k < disconnect_broadcasts(hubs, client).len() && (
            #[trigger] disconnect_broadcasts(hubs, client)[k]).hub == i,
        forall|k: int|
            0 <= k < disconnect_broadcasts(hubs, client).len() ==> (
            #[trigger] disconnect_broadcasts(hubs, client)[k]).frame == status_frame(
                StatusView::WriterReleased,
            ),
{
    lemma_disconnect_broadcasts(hubs, client);
}

/// What the readers are told when a client goes is of the ports that the client could write to, and
/// of each of them.
pub proof fn lemma_disconnect_broadcasts(hubs: Seq<SerialHubView>, client: Seq<char>)
    ensures
        forall|k: int|
            0 <= k < disconnect_broadcasts(hubs, client).len() ==> {
                let told = #[trigger] disconnect_broadcasts(hubs, client)[k];
                &&& 0 <= told.hub < hubs.len()
                &&& hubs[told.hub].writer == Some(client)
                &&& told.frame == status_frame(StatusView::WriterReleased)
            },
        forall|i: int|
            0 <= i < hubs.len() && (#[trigger] hubs[i]).writer == Some(client) ==> exists|k: int|
                0 <= k < disconnect_broadcasts(hubs, client).len() && (
                #[trigger] disconnect_broadcasts(hubs, client)[k]).hub == i,
    decreases hubs.len(),
{
    if hubs.len() > 0 {
        let front = hubs.drop_last();
        let before = disconnect_broadcasts(front, client);
        let all = disconnect_broadcasts(hubs, client);
        lemma_disconnect_broadcasts(front, client);
        assert forall|k: int| 0 <= k < all.len() implies {
            let told = #[trigger] all[k];
            &&& 0 <= told.hub < hubs.len()
            &&& hubs[told.hub].writer == Some(client)
            &&& told.frame == status_frame(StatusView::WriterReleased)
        } by {
            if k < before.len() {
                assert(all[k] == before[k]);
                assert(front[before[k].hub] == hubs[before[k].hub]);
            }
        }
        assert forall|i: int|
            0 <= i < hubs.len() && (#[trigger] hubs[i]).writer == Some(client) implies exists|
            k: int,
        |
            0 <= k < all.len() && (#[trigger] all[k]).hub == i by {
            if i == hubs.len() - 1 {
                assert(all[all.len() - 1].hub == i);
            } else {
                assert(front[i] == hubs[i]);
                let k = choose|k: int| 0 <= k < before.len() && (#[trigger] before[k]).hub == i;
                assert(all[k] == before[k]);
            }
        }
    }
}

/// A broadcast is seen as it is, and so is a list of them.
pub proof fn broadcasts_are_seen_whole(broadcasts: Seq<Broadcast>)
    ensures
        broadcasts_view(broadcasts).len() == broadcasts.len(),
        forall|k: int|
            0 <= k < broadcasts.len() ==> {
                &&& (#[trigger] broadcasts_view(broadcasts)[k]).hub == broadcasts[k].hub
                &&& broadcasts_view(broadcasts)[k].frame == broadcasts[k].frame@
            },
{
}

/// There is a hub for a configuration exactly if one of the hubs has every setting of it.
pub proof fn a_hub_has_every_setting(hubs: Seq<SerialHubView>, config: SerialConfigView)
    ensures
        has_hub(hubs, config) <==> exists|i: int|
            0 <= i < hubs.len() && {
                &&& (#[trigger] hubs[i]).config.port == config.port
                &&& hubs[i].config.baud_rate == config.baud_rate
                &&& hubs[i].config.data_bits == config.data_bits
                &&& hubs[i].config.stop_bits == config.stop_bits
                &&& hubs[i].config.parity == config.parity
            },
{
    if exists|i: int|
        0 <= i < hubs.len() && {
            &&& (#[trigger] hubs[i]).config.port == config.port
            &&& hubs[i].config.baud_rate == config.baud_rate
            &&& hubs[i].config.data_bits == config.data_bits
            &&& hubs[i].config.stop_bits == config.stop_bits
            &&& hubs[i].config.parity == config.parity
        } {
        let i = choose|i: int|
            0 <= i < hubs.len() && {
                &&& (#[trigger] hubs[i]).config.port == config.port
                &&& hubs[i].config.baud_rate == config.baud_rate
                &&& hubs[i].config.data_bits == config.data_bits
                &&& hubs[i].config.stop_bits == config.stop_bits
                &&& hubs[i].config.parity == config.parity
            };
        assert(hubs[i].config == config);
    }
}

/// Giving a hub another writer changes that hub's writer and nothing else.
pub proof fn one_hub_gets_another_writer(
    hubs: Seq<SerialHubView>,
    hub: int,
    writer: Option<Seq<char>>,
    i: int,
)
    requires
        0 <= hub < hubs.len(),
        0 <= i < hubs.len(),
    ensures
        with_writer(hubs, hub, writer).len() == hubs.len(),
        with_writer(hubs, hub, writer)[i].config == hubs[i].config,
        with_writer(hubs, hub, writer)[i].writer == if i == hub {
            writer
        } else {
            hubs[i].writer
        },
{
}

/// Each freed port is told of once, and the ports in their order.
pub proof fn a_freed_port_is_told_of_once(
    hubs: Seq<SerialHubView>,
    client: Seq<char>,
    k: int,
    l: int,
)
    requires
        0 <= k < l < disconnect_broadcasts(hubs, client).len(),
    ensures
        disconnect_broadcasts(hubs, client)[k].hub < disconnect_broadcasts(hubs, client)[l].hub,
    decreases hubs.len(),
{
    let front = hubs.drop_last();
    let before = disconnect_broadcasts(front, client);
    lemma_disconnect_broadcasts(front, client);
    if l < before.len() {
        a_freed_port_is_told_of_once(front, client, k, l);
    } else {
        assert(disconnect_broadcasts(hubs, client)[k] == before[k]);
    }
}

/// A broadcast of a departure says that nobody may write any more.
pub proof fn a_departure_says_that_the_writer_is_gone(
    hubs: Seq<SerialHubView>,
    client: Seq<char>,
    k: int,
)
    requires
        0 <= k < disconnect_broadcasts(hubs, client).len(),
    ensures
        disconnect_broadcasts(hubs, client)[k].frame == (ServerFrameView::Status {
            status: StatusView::WriterReleased,
        }),
{
    lemma_disconnect_broadcasts(hubs, client);
}

} // verus!
