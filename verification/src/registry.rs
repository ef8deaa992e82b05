//! The session registry: the live connections of a server, each with the
//! handle on which bytes for it are queued.
//!
//! No two entries share an identifier. An entry is put in when a connection
//! is accepted and taken out when its reader sees the peer close. The entries
//! are kept in the order they came, so that a broadcast and a snapshot walk
//! them in a fixed order.
//!
//! What a channel holds cannot be seen from here. The registry therefore
//! keeps a record, for proofs only, of every offer of bytes it makes to a
//! channel, and the contracts of the sends speak of that record.

use crate::channel::{try_send, SendOutcome};
use crate::message::{bytes_content, clone_bytes, ConnectionInfo, ConnectionInfoView};
use bytes::Bytes;
use tokio::sync::mpsc::Sender;
use vstd::prelude::*;

verus! {

/// One registered connection.
struct ClientEntry {
    info: ConnectionInfo,
    tx: Sender<Bytes>,
}

/// The mathematical content of one entry: the connection's snapshot and the
/// handle of its outbound channel.
pub ghost struct EntryView {
    pub info: ConnectionInfoView,
    pub tx: Sender<Bytes>,
}

/// Whether some entry has the identifier `id`.
pub open spec fn has_id(entries: Seq<EntryView>, id: Seq<char>) -> bool {
    exists|i: int| 0 <= i < entries.len() && #[trigger] entries[i].info.connection_id == id
}

/// Whether the identifiers of the entries differ from one another.
pub open spec fn distinct_ids(entries: Seq<EntryView>) -> bool {
    forall|i: int, j: int|
        0 <= i < j < entries.len() ==> #[trigger] entries[i].info.connection_id
            != #[trigger] entries[j].info.connection_id
}

/// The place of the entry with the identifier `id`, where there is one.
pub open spec fn index_of_id(entries: Seq<EntryView>, id: Seq<char>) -> int {
    choose|i: int| 0 <= i < entries.len() && #[trigger] entries[i].info.connection_id == id
}

/// The entries after `entry` is registered: it takes the place of the entry
/// with its identifier, or comes last where there was none.
pub open spec fn with_entry(entries: Seq<EntryView>, entry: EntryView) -> Seq<EntryView> {
    if has_id(entries, entry.info.connection_id) {
        entries.update(index_of_id(entries, entry.info.connection_id), entry)
    } else {
        entries.push(entry)
    }
}

/// The entries after the connection `id` is taken out.
pub open spec fn without_id(entries: Seq<EntryView>, id: Seq<char>) -> Seq<EntryView> {
    if has_id(entries, id) {
        entries.remove(index_of_id(entries, id))
    } else {
        entries
    }
}

/// The view of an optional target identifier.
pub open spec fn target_view(target: Option<String>) -> Option<Seq<char>> {
    match target {
        Some(id) => Some(id@),
        None => None,
    }
}

/// The entries that a send is addressed to: the one connection named by
/// `target` if it is registered, none if it is not, and every connection
/// where no target is given.
pub open spec fn recipients(entries: Seq<EntryView>, target: Option<Seq<char>>) -> Seq<EntryView> {
    match target {
        Some(id) => if has_id(entries, id) {
            seq![entries[index_of_id(entries, id)]]
        } else {
            Seq::empty()
        },
        None => entries,
    }
}

/// The identifiers of registry entries, in their order.
pub open spec fn entry_ids(entries: Seq<EntryView>) -> Seq<Seq<char>> {
    Seq::new(entries.len(), |i: int| entries[i].info.connection_id)
}

/// What became of the bytes addressed to one connection.
#[derive(Debug)]
pub struct Delivery {
    /// The connection that was addressed.
    pub connection_id: String,
    /// The bytes that were offered to its channel.
    pub payload: Bytes,
    /// Whether its channel took the bytes.
    pub outcome: SendOutcome,
}

/// The mathematical content of a [`Delivery`].
pub ghost struct DeliveryView {
    pub connection_id: Seq<char>,
    pub payload: Seq<u8>,
    pub outcome: SendOutcome,
}

impl View for Delivery {
    type V = DeliveryView;

    open spec fn view(&self) -> DeliveryView {
        DeliveryView {
            connection_id: self.connection_id@,
            payload: bytes_content(self.payload),
            outcome: self.outcome,
        }
    }
}

/// The views of the deliveries of a report, in its order.
pub open spec fn report_view(report: Seq<Delivery>) -> Seq<DeliveryView> {
    Seq::new(report.len(), |i: int| report[i]@)
}

/// The outcomes of a report, in its order.
pub open spec fn report_outcomes(report: Seq<Delivery>) -> Seq<SendOutcome> {
    Seq::new(report.len(), |i: int| report[i].outcome)
}

/// The report of offering `payload` to the channel of each connection of
/// `ids` in turn, where the channels answered with `outcomes`: one delivery
/// for each connection, in their order, each with the same bytes.
pub open spec fn offered(
    ids: Seq<Seq<char>>,
    payload: Seq<u8>,
    outcomes: Seq<SendOutcome>,
) -> Seq<DeliveryView> {
    Seq::new(
        ids.len(),
        |i: int| DeliveryView { connection_id: ids[i], payload, outcome: outcomes[i] },
    )
}

/// Writes down what became of `payload`, offered to the channel of the
/// connection `connection_id`, for the answer `outcome` of the channel.
pub fn record_delivery(connection_id: String, payload: Bytes, outcome: SendOutcome) -> (delivery:
    Delivery)
    ensures
        delivery@ == (DeliveryView {
            connection_id: connection_id@,
            payload: bytes_content(payload),
            outcome,
        }),
{
    Delivery { connection_id, payload, outcome }
}

impl Delivery {
    /// Whether the channel took the bytes.
    pub fn delivered(&self) -> (r: bool)
        ensures
            r == (self@.outcome == SendOutcome::Queued),
    {
        match self.outcome {
            SendOutcome::Queued => true,
            SendOutcome::Full => false,
            SendOutcome::Closed => false,
        }
    }
}

/// One offer of bytes to the channel of a connection.
pub ghost struct Offer {
    /// The entry whose channel the bytes were offered to.
    pub to: EntryView,
    /// The bytes.
    pub payload: Seq<u8>,
}

/// The offers of `payload` to the channel of each entry of `recipients`, in
/// their order.
pub open spec fn offers_to(recipients: Seq<EntryView>, payload: Seq<u8>) -> Seq<Offer> {
    Seq::new(recipients.len(), |i: int| Offer { to: recipients[i], payload })
}

/// The connections of a server, with the record of what was offered to their
/// channels.
pub struct Registry {
    entries: Vec<ClientEntry>,
    offers: Ghost<Seq<Offer>>,
}

impl View for Registry {
    type V = Seq<EntryView>;

    closed spec fn view(&self) -> Seq<EntryView> {
        Seq::new(
            self.entries@.len(),
            |i: int| EntryView { info: self.entries@[i].info@, tx: self.entries@[i].tx },
        )
    }
}

/// With distinct identifiers, an entry that has `id` is the one `index_of_id` names.
pub proof fn lemma_index_of_id(entries: Seq<EntryView>, id: Seq<char>, i: int)
    requires
        distinct_ids(entries),
        0 <= i < entries.len(),
        entries[i].info.connection_id == id,
    ensures
        has_id(entries, id),
        index_of_id(entries, id) == i,
{
    let k = index_of_id(entries, id);
    assert(0 <= k < entries.len() && entries[k].info.connection_id == id);
    if k < i {
        assert(entries[k].info.connection_id != entries[i].info.connection_id);
    }
    if i < k {
        assert(entries[i].info.connection_id != entries[k].info.connection_id);
    }
}

/// Registering keeps identifiers distinct, and afterwards the registered are
/// those that were, and the new one.
pub proof fn lemma_with_entry(entries: Seq<EntryView>, entry: EntryView)
    requires
        distinct_ids(entries),
    ensures
        distinct_ids(with_entry(entries, entry)),
        forall|id: Seq<char>|
            has_id(with_entry(entries, entry), id) <==> (id == entry.info.connection_id || has_id(
                entries,
                id,
            )),
{
    let after = with_entry(entries, entry);
    let new_id = entry.info.connection_id;
    if has_id(entries, new_id) {
        let k = index_of_id(entries, new_id);
        assert(0 <= k < entries.len() && entries[k].info.connection_id == new_id);
        assert forall|i: int, j: int| 0 <= i < j < after.len() implies after[i].info.connection_id
            != after[j].info.connection_id by {
            assert(entries[i].info.connection_id != entries[j].info.connection_id);
        }
        assert forall|id: Seq<char>| has_id(after, id) <==> (id == new_id || has_id(
            entries,
            id,
        )) by {
            if has_id(after, id) {
                let i = choose|i: int|
                    0 <= i < after.len() && #[trigger] after[i].info.connection_id == id;
                if i != k {
                    assert(entries[i].info.connection_id == id);
                }
            }
            if id == new_id {
                assert(after[k].info.connection_id == id);
            } else if has_id(entries, id) {
                let i = choose|i: int|
                    0 <= i < entries.len() && #[trigger] entries[i].info.connection_id == id;
                assert(after[i].info.connection_id == id);
            }
        }
    } else {
        assert forall|i: int, j: int| 0 <= i < j < after.len() implies after[i].info.connection_id
            != after[j].info.connection_id by {
            if j == entries.len() {
                assert(entries[i].info.connection_id != new_id);
            } else {
                assert(entries[i].info.connection_id != entries[j].info.connection_id);
            }
        }
        assert forall|id: Seq<char>| has_id(after, id) <==> (id == new_id || has_id(
            entries,
            id,
        )) by {
            if has_id(after, id) {
                let i = choose|i: int|
                    0 <= i < after.len() && #[trigger] after[i].info.connection_id == id;
                if i < entries.len() {
                    assert(entries[i].info.connection_id == id);
                }
            }
            if id == new_id {
                assert(after[entries.len() as int].info.connection_id == id);
            } else if has_id(entries, id) {
                let i = choose|i: int|
                    0 <= i < entries.len() && #[trigger] entries[i].info.connection_id == id;
                assert(after[i].info.connection_id == id);
            }
        }
    }
}

/// Taking a connection out keeps identifiers distinct, and afterwards the
/// registered are those that were, but for the one taken out.
pub proof fn lemma_without_id(entries: Seq<EntryView>, gone: Seq<char>)
    requires
        distinct_ids(entries),
    ensures
        distinct_ids(without_id(entries, gone)),
        forall|id: Seq<char>|
            has_id(without_id(entries, gone), id) <==> (id != gone && has_id(entries, id)),
{
    let after = without_id(entries, gone);
    if has_id(entries, gone) {
        let k = index_of_id(entries, gone);
        assert(0 <= k < entries.len() && entries[k].info.connection_id == gone);
        assert forall|i: int, j: int| 0 <= i < j < after.len() implies after[i].info.connection_id
            != after[j].info.connection_id by {
            let oi = if i < k { i } else { i + 1 };
            let oj = if j < k { j } else { j + 1 };
            assert(after[i] == entries[oi]);
            assert(after[j] == entries[oj]);
            assert(entries[oi].info.connection_id != entries[oj].info.connection_id);
        }
        assert forall|id: Seq<char>| has_id(after, id) <==> (id != gone && has_id(
            entries,
            id,
        )) by {
            if has_id(after, id) {
                let i = choose|i: int|
                    0 <= i < after.len() && #[trigger] after[i].info.connection_id == id;
                let oi = if i < k { i } else { i + 1 };
                assert(after[i] == entries[oi]);
                assert(entries[oi].info.connection_id == id);
                if oi < k {
                    assert(entries[oi].info.connection_id != entries[k].info.connection_id);
                } else {
                    assert(entries[k].info.connection_id != entries[oi].info.connection_id);
                }
            }
            if id != gone && has_id(entries, id) {
                let i = choose|i: int|
                    0 <= i < entries.len() && #[trigger] entries[i].info.connection_id == id;
                let ni = if i < k { i } else { i - 1 };
                assert(after[ni] == entries[i]);
                assert(after[ni].info.connection_id == id);
            }
        }
    }
}

impl Registry {
    /// Whether the registry is valid: no two entries share an identifier.
    pub open spec fn wf(&self) -> bool {
        distinct_ids(self@)
    }

    /// Every offer of bytes that was made to a channel of the registry, in
    /// the order they were made.
    pub closed spec fn offers(&self) -> Seq<Offer> {
        self.offers@
    }

    /// A registry without connections, to which nothing was offered.
    pub fn new() -> (r: Self)
        ensures
            r.wf(),
            r@ == Seq::<EntryView>::empty(),
            r.offers() == Seq::<Offer>::empty(),
    {
        let r = Registry { entries: Vec::new(), offers: Ghost(Seq::empty()) };
        assert(r@ =~= Seq::<EntryView>::empty());
        r
    }

    /// The number of registered connections.
    pub fn len(&self) -> (n: usize)
        ensures
            n == self@.len(),
    {
        self.entries.len()
    }

    /// Where the connection `id` is registered, if it is.
    fn find(&self, id: &String) -> (r: Option<usize>)
        requires
            self.wf(),
        ensures
            match r {
                Some(i) => has_id(self@, id@) && i == index_of_id(self@, id@),
                None => !has_id(self@, id@),
            },
    {
        let mut i: usize = 0;
        while i < self.entries.len()
            invariant
                self.wf(),
                i <= self.entries.len(),
                forall|j: int| 0 <= j < i ==> (#[trigger] self@[j]).info.connection_id != id@,
            decreases self.entries.len() - i,
        {
            if self.entries[i].info.connection_id == *id {
                proof {
                    assert(self@[i as int].info.connection_id == id@);
                    lemma_index_of_id(self@, id@, i as int);
                }
                return Some(i);
            }
            assert(self@[i as int].info.connection_id != id@);
            i = i + 1;
        }
        None
    }

    /// Whether the connection `id` is registered.
    pub fn contains(&self, id: &String) -> (r: bool)
        requires
            self.wf(),
        ensures
            r == has_id(self@, id@),
    {
        self.find(id).is_some()
    }

    /// Registers a connection. An entry with the same identifier is replaced.
    pub fn insert(&mut self, info: ConnectionInfo, tx: Sender<Bytes>)
        requires
            old(self).wf(),
        ensures
            final(self).wf(),
            final(self)@ == with_entry(old(self)@, EntryView { info: info@, tx }),
            final(self).offers() == old(self).offers(),
    {
        let ghost entry = EntryView { info: info@, tx };
        proof {
            lemma_with_entry(self@, entry);
        }
        match self.find(&info.connection_id) {
            Some(i) => {
                self.entries.set(i, ClientEntry { info, tx });
                assert(self@ =~= with_entry(old(self)@, entry));
            },
            None => {
                self.entries.push(ClientEntry { info, tx });
                assert(self@ =~= with_entry(old(self)@, entry));
            },
        }
    }

    /// Takes the connection `id` out, and says whether it was registered.
    pub fn remove(&mut self, id: &String) -> (removed: bool)
        requires
            old(self).wf(),
        ensures
            final(self).wf(),
            final(self)@ == without_id(old(self)@, id@),
            final(self).offers() == old(self).offers(),
            removed == has_id(old(self)@, id@),
    {
        proof {
            lemma_without_id(self@, id@);
        }
        match self.find(id) {
            Some(i) => {
                let _ = self.entries.remove(i);
                assert(self@ =~= without_id(old(self)@, id@));
                true
            },
            None => false,
        }
    }

    /// A snapshot of every registered connection, in the order of the registry.
    pub fn snapshot(&self) -> (list: Vec<ConnectionInfo>)
        ensures
            list@.len() == self@.len(),
            forall|i: int| 0 <= i < list@.len() ==> (#[trigger] list@[i])@ == self@[i].info,
    {
        let mut list: Vec<ConnectionInfo> = Vec::new();
        let mut i: usize = 0;
        while i < self.entries.len()
            invariant
                i <= self.entries.len(),
                list@.len() == i,
                forall|j: int| 0 <= j < i ==> (#[trigger] list@[j])@ == self@[j].info,
            decreases self.entries.len() - i,
        {
            list.push(self.entries[i].info.clone());
            i = i + 1;
        }
        list
    }

    /// Offers a copy of `data` to the channel of the entry at `i`, without
    /// waiting, notes the offer, and writes down what the channel answered.
    fn offer(&mut self, i: usize, data: &Bytes) -> (delivery: Delivery)
        requires
            i < old(self)@.len(),
        ensures
            final(self)@ == old(self)@,
            final(self).offers() == old(self).offers().push(
                Offer { to: old(self)@[i as int], payload: bytes_content(*data) },
            ),
            delivery@.connection_id == old(self)@[i as int].info.connection_id,
            delivery@.payload == bytes_content(*data),
    {
        let ghost to = self@[i as int];
        let outcome = try_send(&self.entries[i].tx, clone_bytes(data));
        let connection_id = self.entries[i].info.connection_id.clone();
        self.offers = Ghost(self.offers@.push(Offer { to, payload: bytes_content(*data) }));
        record_delivery(connection_id, clone_bytes(data), outcome)
    }

    /// Offers `data` to the channel of each connection that `target`
    /// addresses, without waiting, and reports what each channel answered.
    ///
    /// One offer is made to each connection addressed, in the order of the
    /// registry, and to no other; the report has one delivery for each offer,
    /// with the bytes of `data`. A connection whose channel is full or closed
    /// misses the bytes; the others still get them. The connections stay as
    /// they are.
    pub fn dispatch(&mut self, data: &Bytes, target: &Option<String>) -> (report: Vec<Delivery>)
        requires
            old(self).wf(),
        ensures
            final(self)@ == old(self)@,
            final(self).offers() == old(self).offers() + offers_to(
                recipients(old(self)@, target_view(*target)),
                bytes_content(*data),
            ),
            report_view(report@) == offered(
                entry_ids(recipients(old(self)@, target_view(*target))),
                bytes_content(*data),
                report_outcomes(report@),
            ),
            report@.len() == recipients(old(self)@, target_view(*target)).len(),
    {
        let mut report: Vec<Delivery> = Vec::new();
        let ghost payload = bytes_content(*data);
        match target {
            Some(id) => {
                match self.find(id) {
                    Some(i) => {
                        report.push(self.offer(i, data));
                        assert(self.offers() =~= old(self).offers() + offers_to(
                            seq![old(self)@[i as int]],
                            payload,
                        ));
                    },
                    None => {
                        assert(self.offers() =~= old(self).offers() + offers_to(
                            Seq::empty(),
                            payload,
                        ));
                    },
                }
            },
            None => {
                let mut i: usize = 0;
                assert(self.offers() =~= old(self).offers() + offers_to(self@.take(0), payload));
                while i < self.entries.len()
                    invariant
                        i <= self.entries.len(),
                        self.entries.len() == self@.len(),
                        self@ == old(self)@,
                        payload == bytes_content(*data),
                        self.offers() == old(self).offers() + offers_to(
                            self@.take(i as int),
                            payload,
                        ),
                        report@.len() == i,
                        forall|j: int|
                            0 <= j < i ==> (#[trigger] report@[j])@.connection_id
                                == self@[j].info.connection_id && report@[j]@.payload == payload,
                    decreases self.entries.len() - i,
                {
                    let ghost before = self.offers();
                    report.push(self.offer(i, data));
                    assert(self.offers() =~= old(self).offers() + offers_to(
                        self@.take(i as int + 1),
                        payload,
                    )) by {
                        assert(offers_to(self@.take(i as int + 1), payload) =~= offers_to(
                            self@.take(i as int),
                            payload,
                        ).push(Offer { to: self@[i as int], payload }));
                    }
                    i = i + 1;
                }
                assert(self@.take(i as int) =~= self@);
            },
        }
        assert(report_view(report@) =~= offered(
            entry_ids(recipients(old(self)@, target_view(*target))),
            payload,
            report_outcomes(report@),
        ));
        report
    }
}

} // verus!
