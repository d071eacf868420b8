//! The module resolver: builds the list of modules loaded in one process
//! and the name-based module lookup by driving the module flavor of the
//! snapshot enumerator, scoped to that process's id.
//!
//! The module flavor requires an explicit "first" step before any "next"
//! step — the asymmetry with the process flavor is deliberate and kept as
//! two named entry points — and an empty "first" is a valid outcome: the
//! scope currently has zero enumerable modules. Both machines here use the
//! same first-then-next entry protocol, so the lookup examines the very
//! first enumerable module too. As in the registry, every path ends in
//! `finish`, which hands the snapshot handle back exactly once.

use vstd::prelude::*;

use crate::Error;
use crate::handle::Handle;
use crate::handle::raw_is_usable;
use crate::module::Module;
use crate::module::ModuleModel;
use crate::module::ModuleRecord;
use crate::module::ModuleRecordModel;
use crate::module::module_of_record;
use crate::name::decode_name;
use crate::name::decode_spec;

verus! {

/// The modules a history of consumed records resolves to: every record, in
/// order, with its name decoded — nothing is skipped and nothing invented.
pub open spec fn resolved(history: Seq<ModuleRecordModel>) -> Seq<ModuleModel> {
    history.map_values(|rec: ModuleRecordModel| module_of_record(rec))
}

/// The full module listing: one snapshot session of the module flavor,
/// opened with "first" and then consumed with "next" until the end.
pub struct ModuleScan {
    snapshot: Handle,
    found: Vec<Module>,
    primed: bool,
    done: bool,
    history: Ghost<Seq<ModuleRecordModel>>,
}

impl ModuleScan {
    /// The raw value of the transient snapshot handle this scan owns.
    pub closed spec fn snapshot_raw(&self) -> usize {
        self.snapshot@
    }

    /// The records consumed so far.
    pub closed spec fn history(&self) -> Seq<ModuleRecordModel> {
        self.history@
    }

    /// The modules resolved so far.
    pub closed spec fn found_models(&self) -> Seq<ModuleModel> {
        self.found@.map_values(|m: Module| m@)
    }

    /// Ready for the outcome of the explicit "first" step.
    pub closed spec fn awaiting_first(&self) -> bool {
        !self.primed && !self.done
    }

    /// The "first" step produced a record; ready for "next" outcomes.
    pub closed spec fn awaiting_next(&self) -> bool {
        self.primed && !self.done
    }

    /// The enumeration reported its end; only `finish` is left.
    pub closed spec fn is_done(&self) -> bool {
        self.done
    }

    /// The machine's invariant: the snapshot handle is usable and what was
    /// resolved is exactly the consumed history, decoded.
    pub closed spec fn wf(&self) -> bool {
        &&& raw_is_usable(self.snapshot@)
        &&& self.found@.map_values(|m: Module| m@) == resolved(self.history@)
    }

    /// Open the listing on a freshly created snapshot handle, scoped to
    /// one process id. An unusable raw value fails with
    /// `ResourceUnavailable` at once; there is then nothing to release.
    pub fn begin(snapshot_raw: usize) -> (r: Result<ModuleScan, Error>)
        ensures
            r is Ok <==> raw_is_usable(snapshot_raw),
            r matches Err(e) ==> e == Error::ResourceUnavailable,
            r matches Ok(scan) ==> scan.wf() && scan.awaiting_first() && scan.snapshot_raw()
                == snapshot_raw && scan.history() == Seq::<ModuleRecordModel>::empty()
                && scan.found_models() == Seq::<ModuleModel>::empty(),
    {
        let snapshot = match Handle::acquire(snapshot_raw) {
            Ok(h) => h,
            Err(e) => {
                return Err(e);
            },
        };
        let scan = ModuleScan {
            snapshot,
            found: Vec::new(),
            primed: false,
            done: false,
            history: Ghost(Seq::empty()),
        };
        proof {
            assert(scan.found@.map_values(|m: Module| m@) =~= resolved(scan.history@));
        }
        Ok(scan)
    }

    /// Consume the outcome of the explicit "first" step. `None` means the
    /// scope currently has zero enumerable modules: the listing is simply
    /// complete and empty, a valid outcome and no error. A record is
    /// decoded and resolved like any other.
    pub fn on_first(&mut self, rec: Option<ModuleRecord>)
        requires
            old(self).wf(),
            old(self).awaiting_first(),
        ensures
            final(self).wf(),
            final(self).snapshot_raw() == old(self).snapshot_raw(),
            rec matches Some(r) ==> final(self).awaiting_next() && final(self).history() == old(
                self,
            ).history().push(r@) && final(self).found_models() == old(
                self,
            ).found_models().push(module_of_record(r@)),
            rec is None ==> final(self).is_done() && final(self).history() == old(self).history()
                && final(self).found_models() == old(self).found_models(),
    {
        match rec {
            Some(rec) => {
                let name = decode_name(&rec.name_buf);
                let module = Module::make(name, rec.base_address);
                proof {
                    assert(module@ == module_of_record(rec@));
                }
                self.found.push(module);
                self.history = Ghost(self.history@.push(rec@));
                self.primed = true;
                proof {
                    assert(self.found@.map_values(|m: Module| m@) =~= old(self).found@.map_values(
                        |m: Module| m@,
                    ).push(module@));
                    assert(resolved(self.history@) =~= resolved(old(self).history@).push(
                        module_of_record(rec@),
                    ));
                }
            },
            None => {
                self.done = true;
            },
        }
    }

    /// Consume the outcome of a "next" step: a record is decoded and
    /// resolved; `None` is the end of the enumeration, after which the
    /// snapshot handle is due for release through `finish`.
    pub fn on_next(&mut self, rec: Option<ModuleRecord>)
        requires
            old(self).wf(),
            old(self).awaiting_next(),
        ensures
            final(self).wf(),
            final(self).snapshot_raw() == old(self).snapshot_raw(),
            rec matches Some(r) ==> final(self).awaiting_next() && final(self).history() == old(
                self,
            ).history().push(r@) && final(self).found_models() == old(
                self,
            ).found_models().push(module_of_record(r@)),
            rec is None ==> final(self).is_done() && final(self).history() == old(self).history()
                && final(self).found_models() == old(self).found_models(),
    {
        match rec {
            Some(rec) => {
                let name = decode_name(&rec.name_buf);
                let module = Module::make(name, rec.base_address);
                proof {
                    assert(module@ == module_of_record(rec@));
                }
                self.found.push(module);
                self.history = Ghost(self.history@.push(rec@));
                proof {
                    assert(self.found@.map_values(|m: Module| m@) =~= old(self).found@.map_values(
                        |m: Module| m@,
                    ).push(module@));
                    assert(resolved(self.history@) =~= resolved(old(self).history@).push(
                        module_of_record(rec@),
                    ));
                }
            },
            None => {
                self.done = true;
            },
        }
    }

    /// Close the listing: hand back the resolved modules — exactly the
    /// consumed records, decoded — together with the snapshot handle, owed
    /// for release exactly once, on the empty and the non-empty outcome
    /// alike.
    pub fn finish(self) -> (r: (Vec<Module>, Handle))
        requires
            self.wf(),
            self.is_done(),
        ensures
            r.0@.map_values(|m: Module| m@) == resolved(self.history()),
            r.0@.map_values(|m: Module| m@) == self.found_models(),
            r.1@ == self.snapshot_raw(),
    {
        let ModuleScan { snapshot, found, .. } = self;
        (found, snapshot)
    }
}

/// The image of a module lookup's result, with the module abstracted to
/// its model.
pub open spec fn module_result_model(r: Result<Module, Error>) -> Result<ModuleModel, Error> {
    match r {
        Ok(m) => Ok(m@),
        Err(e) => Err(e),
    }
}

/// The name-based module lookup: one snapshot session of the module
/// flavor, consumed with the same first-then-next protocol as the full
/// listing, until the first record whose decoded name is an exact,
/// case-sensitive match. `NotFound` is reported only once the whole
/// enumeration has been consumed without a match — including when it was
/// empty from the start.
pub struct ModuleFind {
    snapshot: Handle,
    target: String,
    primed: bool,
    outcome: Option<Result<Module, Error>>,
    seen: Ghost<Seq<Seq<u8>>>,
}

impl ModuleFind {
    /// The raw value of the transient snapshot handle this lookup owns.
    pub closed spec fn snapshot_raw(&self) -> usize {
        self.snapshot@
    }

    /// The name the lookup is after.
    pub closed spec fn target(&self) -> Seq<char> {
        self.target@
    }

    /// The name buffers of the records examined and passed over.
    pub closed spec fn seen(&self) -> Seq<Seq<u8>> {
        self.seen@
    }

    /// Ready for the outcome of the explicit "first" step.
    pub closed spec fn awaiting_first(&self) -> bool {
        !self.primed && self.outcome is None
    }

    /// The "first" step produced a record that missed; ready for "next"
    /// outcomes.
    pub closed spec fn awaiting_next(&self) -> bool {
        self.primed && self.outcome is None
    }

    /// The lookup's result, with the module abstracted to its model.
    pub closed spec fn outcome(&self) -> Option<Result<ModuleModel, Error>> {
        match self.outcome {
            Some(r) => Some(module_result_model(r)),
            None => None,
        }
    }

    /// The lookup is decided; only `finish` is left.
    pub closed spec fn finished(&self) -> bool {
        self.outcome is Some
    }

    /// Whether the "first" step has been consumed.
    pub closed spec fn primed_flag(&self) -> bool {
        self.primed
    }

    /// The machine's invariant: the snapshot handle is usable, every
    /// passed-over record's decoded name misses the target, and a success
    /// outcome carries a module named by the target.
    pub closed spec fn wf(&self) -> bool {
        &&& raw_is_usable(self.snapshot@)
        &&& forall|i: int|
            0 <= i < self.seen@.len() ==> decode_spec(#[trigger] self.seen@[i]) != self.target@
        &&& (self.outcome matches Some(r) ==> (r matches Ok(m) ==> m@.name == self.target@))
    }

    /// Open the lookup on a freshly created snapshot handle, for one
    /// target name. An unusable raw value fails with `ResourceUnavailable`
    /// at once.
    pub fn begin(snapshot_raw: usize, name: String) -> (r: Result<ModuleFind, Error>)
        ensures
            r is Ok <==> raw_is_usable(snapshot_raw),
            r matches Err(e) ==> e == Error::ResourceUnavailable,
            r matches Ok(find) ==> find.wf() && find.awaiting_first() && find.snapshot_raw()
                == snapshot_raw && find.target() == name@ && find.seen() == Seq::<Seq<u8>>::empty(),
    {
        let snapshot = match Handle::acquire(snapshot_raw) {
            Ok(h) => h,
            Err(e) => {
                return Err(e);
            },
        };
        Ok(
            ModuleFind {
                snapshot,
                target: name,
                primed: false,
                outcome: None,
                seen: Ghost(Seq::empty()),
            },
        )
    }

    /// Consume the outcome of the explicit "first" step. An empty "first"
    /// exhausts the enumeration at once: the lookup is decided with
    /// `NotFound`. A record is compared like any other, so the very first
    /// enumerable module is examined too.
    pub fn on_first(&mut self, rec: Option<ModuleRecord>) -> (matched: bool)
        requires
            old(self).wf(),
            old(self).awaiting_first(),
        ensures
            final(self).wf(),
            final(self).snapshot_raw() == old(self).snapshot_raw(),
            final(self).target() == old(self).target(),
            matched == (rec matches Some(r) && decode_spec(r.name_buf@) == old(self).target()),
            rec matches Some(r) ==> (if matched {
                final(self).finished() && final(self).outcome() == Some(
                    Ok::<ModuleModel, Error>(module_of_record(r@)),
                ) && final(self).seen() == old(self).seen()
            } else {
                final(self).awaiting_next() && final(self).seen() == old(self).seen().push(
                    r.name_buf@,
                )
            }),
            rec is None ==> final(self).finished() && final(self).outcome() == Some(
                Err::<ModuleModel, Error>(Error::NotFound),
            ) && final(self).seen() == old(self).seen(),
    {
        match rec {
            Some(rec) => {
                let matched = self.examine(rec);
                self.primed = true;
                matched
            },
            None => {
                self.outcome = Some(Err(Error::NotFound));
                false
            },
        }
    }

    /// Consume the outcome of a "next" step: a record is compared to the
    /// target; `None` exhausts the enumeration and decides the lookup with
    /// `NotFound` — every record it examined had a decoded name other than
    /// the target.
    pub fn on_next(&mut self, rec: Option<ModuleRecord>) -> (matched: bool)
        requires
            old(self).wf(),
            old(self).awaiting_next(),
        ensures
            final(self).wf(),
            final(self).snapshot_raw() == old(self).snapshot_raw(),
            final(self).target() == old(self).target(),
            matched == (rec matches Some(r) && decode_spec(r.name_buf@) == old(self).target()),
            rec matches Some(r) ==> (if matched {
                final(self).finished() && final(self).outcome() == Some(
                    Ok::<ModuleModel, Error>(module_of_record(r@)),
                ) && final(self).seen() == old(self).seen()
            } else {
                final(self).awaiting_next() && final(self).seen() == old(self).seen().push(
                    r.name_buf@,
                )
            }),
            rec is None ==> final(self).finished() && final(self).outcome() == Some(
                Err::<ModuleModel, Error>(Error::NotFound),
            ) && final(self).seen() == old(self).seen() && (forall|i: int|
                0 <= i < final(self).seen().len() ==> decode_spec(#[trigger] final(self).seen()[i])
                    != final(self).target()),
    {
        match rec {
            Some(rec) => self.examine(rec),
            None => {
                self.outcome = Some(Err(Error::NotFound));
                false
            },
        }
    }

    /// Compare one record's decoded name to the target: a hit decides the
    /// lookup with the resolved module, a miss passes the record over.
    fn examine(&mut self, rec: ModuleRecord) -> (matched: bool)
        requires
            old(self).wf(),
            old(self).outcome is None,
        ensures
            final(self).wf(),
            final(self).snapshot_raw() == old(self).snapshot_raw(),
            final(self).target() == old(self).target(),
            final(self).primed_flag() == old(self).primed_flag(),
            matched == (decode_spec(rec.name_buf@) == old(self).target()),
            matched ==> final(self).outcome() == Some(
                Ok::<ModuleModel, Error>(module_of_record(rec@)),
            ) && final(self).seen() == old(self).seen(),
            !matched ==> final(self).outcome() is None && final(self).seen() == old(
                self,
            ).seen().push(rec.name_buf@),
    {
        let name = decode_name(&rec.name_buf);
        if name == self.target {
            let module = Module::make(name, rec.base_address);
            proof {
                assert(module@ == module_of_record(rec@));
            }
            self.outcome = Some(Ok(module));
            true
        } else {
            self.seen = Ghost(self.seen@.push(rec.name_buf@));
            false
        }
    }


    /// Close the lookup: hand back its result together with the snapshot
    /// handle, owed for release exactly once — on a match and on
    /// exhaustion alike.
    pub fn finish(self) -> (r: (Result<Module, Error>, Handle))
        requires
            self.wf(),
            self.finished(),
        ensures
            Some(module_result_model(r.0)) == self.outcome(),
            r.0 matches Ok(m) ==> m@.name == self.target(),
            r.1@ == self.snapshot_raw(),
    {
        let ModuleFind { snapshot, outcome, .. } = self;
        match outcome {
            Some(r) => (r, snapshot),
            None => {
                proof {
                    assert(false);
                }
                vstd::pervasive::unreached()
            },
        }
    }
}

} // verus!
