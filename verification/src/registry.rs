//! The process registry: builds the list of running processes and the
//! name-based lookup by driving the process flavor of the snapshot
//! enumerator.
//!
//! The OS calls themselves (creating the snapshot, advancing it, opening a
//! process handle, closing the snapshot) are performed outside this crate;
//! the state machines here consume their raw outcomes one event at a time
//! and make every decision: which records to keep, which to skip, when a
//! lookup has succeeded or is exhausted, and when the transient snapshot
//! handle is due for release. Every path through a machine ends in
//! `finish`, which hands the snapshot handle back exactly once.
//!
//! The process flavor begins directly with "next" records (no explicit
//! "first" step), so both machines accept records from the very first
//! enumeration call on.

use vstd::prelude::*;

use crate::Error;
use crate::handle::Handle;
use crate::handle::INVALID_HANDLE_RAW;
use crate::handle::raw_is_usable;
use crate::name::decode_name;
use crate::name::decode_spec;
use crate::process::Process;
use crate::process::ProcessModel;
use crate::process::ProcessRecord;

verus! {

/// One consumed step of a full scan, as kept in its ghost history: the
/// record the enumerator produced and the raw outcome of the per-record
/// handle acquisition.
pub struct ScanEvent {
    pub id: u32,
    pub name_buf: Seq<u8>,
    pub opened: usize,
}

/// The process `ScanEvent` stands for, when its handle acquisition
/// succeeded.
pub open spec fn process_of_event(e: ScanEvent) -> ProcessModel {
    ProcessModel { id: e.id, name: decode_spec(e.name_buf), handle_raw: e.opened }
}

/// The processes a history of scan events collects: one per event whose
/// handle acquisition produced a usable raw value, in order. Events whose
/// acquisition failed (commonly protected system processes) are skipped:
/// the deliberate best-effort policy of the full listing.
pub open spec fn collected(history: Seq<ScanEvent>) -> Seq<ProcessModel>
    decreases history.len(),
{
    if history.len() == 0 {
        Seq::empty()
    } else {
        collected(history.drop_last()) + (if raw_is_usable(history.last().opened) {
            seq![process_of_event(history.last())]
        } else {
            Seq::<ProcessModel>::empty()
        })
    }
}

/// Law: the full listing never drops an accessible process. Every consumed
/// record whose handle acquisition produced a usable value appears in the
/// collected sequence, with that record's id, its decoded name, and the
/// acquired handle.
pub proof fn lemma_collected_complete(history: Seq<ScanEvent>, i: int)
    requires
        0 <= i < history.len(),
        raw_is_usable(history[i].opened),
    ensures
        exists|j: int|
            0 <= j < collected(history).len() && collected(history)[j] == process_of_event(
                history[i],
            ),
    decreases history.len(),
{
    if i == history.len() - 1 {
        let j = collected(history).len() - 1;
        assert(collected(history)[j] == process_of_event(history[i]));
    } else {
        lemma_collected_complete(history.drop_last(), i);
        assert(history.drop_last()[i] == history[i]);
        let j = choose|j: int|
            0 <= j < collected(history.drop_last()).len() && collected(history.drop_last())[j]
                == process_of_event(history[i]);
        assert(collected(history)[j] == process_of_event(history[i]));
    }
}

/// Law: the full listing invents nothing. Every collected process comes
/// from a consumed record whose handle acquisition succeeded.
pub proof fn lemma_collected_sound(history: Seq<ScanEvent>, j: int)
    requires
        0 <= j < collected(history).len(),
    ensures
        exists|i: int|
            0 <= i < history.len() && raw_is_usable(#[trigger] history[i].opened) && collected(
                history,
            )[j] == process_of_event(history[i]),
    decreases history.len(),
{
    if history.len() > 0 {
        if j < collected(history.drop_last()).len() {
            lemma_collected_sound(history.drop_last(), j);
            let i = choose|i: int|
                0 <= i < history.drop_last().len() && raw_is_usable(
                    #[trigger] history.drop_last()[i].opened,
                ) && collected(history.drop_last())[j] == process_of_event(
                    history.drop_last()[i],
                );
            assert(history[i] == history.drop_last()[i]);
        } else {
            let i = history.len() - 1;
            assert(raw_is_usable(history[i].opened) && collected(history)[j] == process_of_event(
                history[i],
            ));
        }
    }
}

/// The full-listing scan: one snapshot session of the process flavor,
/// consumed record by record. For each record the registry asks for a
/// process handle with full access rights; records whose acquisition fails
/// are skipped, the rest are collected.
pub struct ProcessScan {
    snapshot: Handle,
    found: Vec<Process>,
    pending: Option<ProcessRecord>,
    done: bool,
    history: Ghost<Seq<ScanEvent>>,
}

impl ProcessScan {
    /// The raw value of the transient snapshot handle this scan owns.
    pub closed spec fn snapshot_raw(&self) -> usize {
        self.snapshot@
    }

    /// The events consumed so far.
    pub closed spec fn history(&self) -> Seq<ScanEvent> {
        self.history@
    }

    /// The processes collected so far.
    pub closed spec fn found_models(&self) -> Seq<ProcessModel> {
        self.found@.map_values(|p: Process| p@)
    }

    /// The id of the record whose handle acquisition is in flight.
    pub closed spec fn pending_id(&self) -> u32 {
        self.pending->Some_0.id
    }

    /// The name buffer of the record whose handle acquisition is in flight.
    pub closed spec fn pending_name_buf(&self) -> Seq<u8> {
        self.pending->Some_0.name_buf@
    }

    /// Ready for the next record (or for the end of the sequence).
    pub closed spec fn awaiting_record(&self) -> bool {
        self.pending is None && !self.done
    }

    /// A record is in hand; the per-record handle acquisition is in flight.
    pub closed spec fn awaiting_open(&self) -> bool {
        self.pending is Some && !self.done
    }

    /// The enumeration reported its end; only `finish` is left.
    pub closed spec fn is_done(&self) -> bool {
        self.done
    }

    /// The machine's invariant: the snapshot handle is usable, what was
    /// collected is exactly what the consumed history collects, and every
    /// collected process is well-formed.
    pub closed spec fn wf(&self) -> bool {
        &&& raw_is_usable(self.snapshot@)
        &&& self.found@.map_values(|p: Process| p@) == collected(self.history@)
        &&& forall|i: int| 0 <= i < self.found@.len() ==> (#[trigger] self.found@[i]).wf()
        &&& (self.done ==> self.pending is None)
    }

    /// Open the scan on a freshly created snapshot handle. A raw value the
    /// OS reports as unusable (the invalid sentinel, or null) fails with
    /// `ResourceUnavailable` at once, before it is stored anywhere; there
    /// is then no resource to release.
    pub fn begin(snapshot_raw: usize) -> (r: Result<ProcessScan, Error>)
        ensures
            r is Ok <==> raw_is_usable(snapshot_raw),
            r matches Err(e) ==> e == Error::ResourceUnavailable,
            r matches Ok(scan) ==> scan.wf() && scan.awaiting_record() && scan.snapshot_raw()
                == snapshot_raw && scan.history() == Seq::<ScanEvent>::empty()
                && scan.found_models() == Seq::<ProcessModel>::empty(),
    {
        let snapshot = match Handle::acquire(snapshot_raw) {
            Ok(h) => h,
            Err(e) => {
                return Err(e);
            },
        };
        let scan = ProcessScan {
            snapshot,
            found: Vec::new(),
            pending: None,
            done: false,
            history: Ghost(Seq::empty()),
        };
        proof {
            assert(scan.found@.map_values(|p: Process| p@) =~= collected(scan.history@));
        }
        Ok(scan)
    }

    /// Consume the next record of the enumeration. The registry now needs
    /// the outcome of a handle acquisition for this record's id before it
    /// can go on.
    pub fn on_record(&mut self, rec: ProcessRecord)
        requires
            old(self).wf(),
            old(self).awaiting_record(),
        ensures
            final(self).wf(),
            final(self).awaiting_open(),
            final(self).snapshot_raw() == old(self).snapshot_raw(),
            final(self).history() == old(self).history(),
            final(self).found_models() == old(self).found_models(),
            final(self).pending_id() == rec.id,
            final(self).pending_name_buf() == rec.name_buf@,
    {
        self.pending = Some(rec);
    }

    /// Consume the raw outcome of the handle acquisition for the pending
    /// record. A usable value collects the process (with the record's id
    /// and decoded name, owning the new handle); an unusable one skips the
    /// record silently — the best-effort policy of the full listing.
    pub fn on_open(&mut self, raw: usize)
        requires
            old(self).wf(),
            old(self).awaiting_open(),
        ensures
            final(self).wf(),
            final(self).awaiting_record(),
            final(self).snapshot_raw() == old(self).snapshot_raw(),
            final(self).history() == old(self).history().push(
                (ScanEvent {
                    id: old(self).pending_id(),
                    name_buf: old(self).pending_name_buf(),
                    opened: raw,
                }),
            ),
            raw_is_usable(raw) ==> final(self).found_models() == old(self).found_models().push(
                (ProcessModel {
                    id: old(self).pending_id(),
                    name: decode_spec(old(self).pending_name_buf()),
                    handle_raw: raw,
                }),
            ),
            !raw_is_usable(raw) ==> final(self).found_models() == old(self).found_models(),
    {
        let rec = match self.pending.take() {
            Some(rec) => rec,
            None => {
                proof {
                    assert(false);
                }
                vstd::pervasive::unreached()
            },
        };
        let ghost event = ScanEvent { id: rec.id, name_buf: rec.name_buf@, opened: raw };
        if raw != 0 && raw != INVALID_HANDLE_RAW {
            let name = decode_name(&rec.name_buf);
            let handle = Handle::wrap(raw);
            let process = Process::make(rec.id, name, handle);
            proof {
                assert(process@ == process_of_event(event));
            }
            self.found.push(process);
            proof {
                assert(self.found@.map_values(|p: Process| p@) =~= old(self).found@.map_values(
                    |p: Process| p@,
                ).push(process@));
                assert forall|i: int| 0 <= i < self.found@.len() implies (
                #[trigger] self.found@[i]).wf() by {
                    if i < old(self).found@.len() {
                        assert(self.found@[i] == old(self).found@[i]);
                    } else {
                        assert(self.found@[i] == process);
                    }
                }
            }
        }
        self.history = Ghost(self.history@.push(event));
        proof {
            assert(self.history@.drop_last() =~= old(self).history@);
            assert(self.history@.last() == event);
            if raw_is_usable(raw) {
                assert(collected(self.history@) =~= collected(old(self).history@).push(
                    process_of_event(event),
                ));
            } else {
                assert(collected(self.history@) =~= collected(old(self).history@));
            }
            assert(self.found@.map_values(|p: Process| p@) =~= collected(self.history@));
        }
    }

    /// Consume the end of the enumeration: nothing further will arrive and
    /// the snapshot handle is now due for release through `finish`.
    pub fn on_end(&mut self)
        requires
            old(self).wf(),
            old(self).awaiting_record(),
        ensures
            final(self).wf(),
            final(self).is_done(),
            final(self).snapshot_raw() == old(self).snapshot_raw(),
            final(self).history() == old(self).history(),
            final(self).found_models() == old(self).found_models(),
    {
        self.done = true;
    }

    /// Close the scan: hand back the collected processes — exactly what the
    /// consumed history collects — together with the snapshot handle, owed
    /// for release exactly once, however many records were skipped.
    pub fn finish(self) -> (r: (Vec<Process>, Handle))
        requires
            self.wf(),
            self.is_done(),
        ensures
            r.0@.map_values(|p: Process| p@) == collected(self.history()),
            r.0@.map_values(|p: Process| p@) == self.found_models(),
            forall|i: int| 0 <= i < r.0@.len() ==> (#[trigger] r.0@[i]).wf(),
            r.1@ == self.snapshot_raw(),
    {
        let ProcessScan { snapshot, found, .. } = self;
        (found, snapshot)
    }
}

/// The image of a lookup's result, with the process abstracted to its
/// model.
pub open spec fn result_model(r: Result<Process, Error>) -> Result<ProcessModel, Error> {
    match r {
        Ok(p) => Ok(p@),
        Err(e) => Err(e),
    }
}

/// The name-based lookup: one snapshot session of the process flavor,
/// consumed record by record until the first record whose decoded name is
/// an exact, case-sensitive match. Only for that record is a handle
/// acquisition requested, and — unlike the full listing's skip policy — a
/// failed acquisition there is propagated as a failure, since the caller
/// asked for that one process. `NotFound` is reported only once the whole
/// enumeration has been consumed without a match.
pub struct ProcessFind {
    snapshot: Handle,
    target: String,
    pending: Option<ProcessRecord>,
    outcome: Option<Result<Process, Error>>,
    seen: Ghost<Seq<Seq<u8>>>,
}

impl ProcessFind {
    /// The raw value of the transient snapshot handle this lookup owns.
    pub closed spec fn snapshot_raw(&self) -> usize {
        self.snapshot@
    }

    /// The name the lookup is after.
    pub closed spec fn target(&self) -> Seq<char> {
        self.target@
    }

    /// The name buffers of the records examined and passed over.
    pub closed spec fn seen(&self) -> Seq<Seq<u8>> {
        self.seen@
    }

    /// The id of the matching record whose handle acquisition is in
    /// flight.
    pub closed spec fn pending_id(&self) -> u32 {
        self.pending->Some_0.id
    }

    /// Ready for the next record (or for the end of the enumeration).
    pub closed spec fn scanning(&self) -> bool {
        self.pending is None && self.outcome is None
    }

    /// A matching record is in hand; its handle acquisition is in flight.
    pub closed spec fn awaiting_open(&self) -> bool {
        self.pending is Some && self.outcome is None
    }

    /// The lookup's result, with the process abstracted to its model.
    pub closed spec fn outcome(&self) -> Option<Result<ProcessModel, Error>> {
        match self.outcome {
            Some(r) => Some(result_model(r)),
            None => None,
        }
    }

    /// The lookup is decided; only `finish` is left.
    pub closed spec fn finished(&self) -> bool {
        self.outcome is Some
    }

    /// The machine's invariant: the snapshot handle is usable, every
    /// passed-over record's decoded name misses the target, a pending
    /// record's decoded name hits it, and a success outcome carries a
    /// well-formed process named by the target.
    pub closed spec fn wf(&self) -> bool {
        &&& raw_is_usable(self.snapshot@)
        &&& !(self.pending is Some && self.outcome is Some)
        &&& forall|i: int|
            0 <= i < self.seen@.len() ==> decode_spec(#[trigger] self.seen@[i]) != self.target@
        &&& (self.pending matches Some(rec) ==> decode_spec(rec.name_buf@) == self.target@)
        &&& (self.outcome matches Some(r) ==> (r matches Ok(p) ==> p.wf() && p@.name
            == self.target@))
    }

    /// Open the lookup on a freshly created snapshot handle, for one
    /// target name. As with the full listing, an unusable raw value fails
    /// with `ResourceUnavailable` at once.
    pub fn begin(snapshot_raw: usize, name: String) -> (r: Result<ProcessFind, Error>)
        ensures
            r is Ok <==> raw_is_usable(snapshot_raw),
            r matches Err(e) ==> e == Error::ResourceUnavailable,
            r matches Ok(find) ==> find.wf() && find.scanning() && find.snapshot_raw()
                == snapshot_raw && find.target() == name@ && find.seen() == Seq::<Seq<u8>>::empty(),
    {
        let snapshot = match Handle::acquire(snapshot_raw) {
            Ok(h) => h,
            Err(e) => {
                return Err(e);
            },
        };
        Ok(
            ProcessFind {
                snapshot,
                target: name,
                pending: None,
                outcome: None,
                seen: Ghost(Seq::empty()),
            },
        )
    }

    /// Consume the next record: decode its name and compare it to the
    /// target, exactly and case-sensitively. On a match the lookup needs
    /// the outcome of a handle acquisition for this record's id before it
    /// is decided; otherwise the record is passed over and the enumeration
    /// goes on.
    pub fn on_record(&mut self, rec: ProcessRecord) -> (matched: bool)
        requires
            old(self).wf(),
            old(self).scanning(),
        ensures
            final(self).wf(),
            matched == (decode_spec(rec.name_buf@) == old(self).target()),
            final(self).snapshot_raw() == old(self).snapshot_raw(),
            final(self).target() == old(self).target(),
            matched ==> final(self).awaiting_open() && final(self).pending_id() == rec.id
                && final(self).seen() == old(self).seen(),
            !matched ==> final(self).scanning() && final(self).seen() == old(self).seen().push(
                rec.name_buf@,
            ),
    {
        let name = decode_name(&rec.name_buf);
        if name == self.target {
            self.pending = Some(rec);
            true
        } else {
            self.seen = Ghost(self.seen@.push(rec.name_buf@));
            false
        }
    }

    /// Consume the raw outcome of the handle acquisition for the matching
    /// record. A usable value decides the lookup with the found process; an
    /// unusable one decides it with a failure — `ResourceUnavailable` when
    /// the OS reported nothing at all, `InvalidData` when the handle it
    /// reported is the invalid sentinel.
    pub fn on_open(&mut self, raw: usize)
        requires
            old(self).wf(),
            old(self).awaiting_open(),
        ensures
            final(self).wf(),
            final(self).finished(),
            final(self).snapshot_raw() == old(self).snapshot_raw(),
            final(self).target() == old(self).target(),
            final(self).seen() == old(self).seen(),
            raw_is_usable(raw) ==> final(self).outcome() == Some(
                Ok::<ProcessModel, Error>(
                    ProcessModel {
                        id: old(self).pending_id(),
                        name: old(self).target(),
                        handle_raw: raw,
                    },
                ),
            ),
            raw == 0 ==> final(self).outcome() == Some(
                Err::<ProcessModel, Error>(Error::ResourceUnavailable),
            ),
            raw == INVALID_HANDLE_RAW ==> final(self).outcome() == Some(
                Err::<ProcessModel, Error>(Error::InvalidData),
            ),
    {
        let rec = match self.pending.take() {
            Some(rec) => rec,
            None => {
                proof {
                    assert(false);
                }
                vstd::pervasive::unreached()
            },
        };
        if raw == 0 {
            self.outcome = Some(Err(Error::ResourceUnavailable));
        } else if raw == INVALID_HANDLE_RAW {
            self.outcome = Some(Err(Error::InvalidData));
        } else {
            let name = decode_name(&rec.name_buf);
            let handle = Handle::wrap(raw);
            self.outcome = Some(Ok(Process::make(rec.id, name, handle)));
        }
    }

    /// Consume the end of the enumeration: no record matched, so the
    /// lookup is decided with `NotFound` — every record it examined had a
    /// decoded name other than the target.
    pub fn on_end(&mut self)
        requires
            old(self).wf(),
            old(self).scanning(),
        ensures
            final(self).wf(),
            final(self).finished(),
            final(self).snapshot_raw() == old(self).snapshot_raw(),
            final(self).target() == old(self).target(),
            final(self).seen() == old(self).seen(),
            final(self).outcome() == Some(Err::<ProcessModel, Error>(Error::NotFound)),
            forall|i: int|
                0 <= i < final(self).seen().len() ==> decode_spec(#[trigger] final(self).seen()[i])
                    != final(self).target(),
    {
        self.outcome = Some(Err(Error::NotFound));
    }

    /// Close the lookup: hand back its result together with the snapshot
    /// handle, owed for release exactly once — on a match, a no-match and
    /// a failed acquisition alike.
    pub fn finish(self) -> (r: (Result<Process, Error>, Handle))
        requires
            self.wf(),
            self.finished(),
        ensures
            Some(result_model(r.0)) == self.outcome(),
            r.0 matches Ok(p) ==> p.wf() && p@.name == self.target(),
            r.1@ == self.snapshot_raw(),
    {
        let ProcessFind { snapshot, outcome, .. } = self;
        match outcome {
            Some(r) => (r, snapshot),
            None => {
                proof {
                    assert(false);
                }
                vstd::pervasive::unreached()
            },
        }
    }
}

} // verus!
