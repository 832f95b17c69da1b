//! The two-stage discovery engine.
//!
//! Discovery fetches the manifest, parses it into index-file entries, fans
//! out over every index file, and aggregates the descriptors they yield.
//! Only the manifest fetch is fatal: a failed, empty or malformed index
//! file contributes an empty list and the run goes on.  The fan-out runs
//! concurrently with no ordering guarantee, so every index result is tied
//! to its entry by position, never by completion order.

use crate::descriptor::{desc_model, DescriptorModel, IndexFileEntry, MrfFileInfo};
use crate::errors::SourceError;
use crate::index::{index_descriptors_from_body, index_result_model};
use crate::manifest::{entry_model, manifest_model, parse_manifest, IndexEntryModel};
use vstd::prelude::*;

verus! {

/// Concatenation of per-index results, in manifest order.
pub open spec fn flatten_models(rs: Seq<Seq<DescriptorModel>>) -> Seq<DescriptorModel>
    decreases rs.len(),
{
    if rs.len() == 0 {
        Seq::empty()
    } else {
        rs.first() + flatten_models(rs.drop_first())
    }
}

/// Append every element of `chunk` to `out`.
fn append_all(out: &mut Vec<MrfFileInfo>, chunk: Vec<MrfFileInfo>)
    ensures
        final(out)@ == old(out)@ + chunk@,
{
    let ghost orig = chunk@;
    let mut chunk = chunk;
    let n = chunk.len();
    let mut i: usize = 0;
    while i < n
        invariant
            i <= n,
            orig.len() == n,
            chunk@ =~= orig.skip(i as int),
            out@ =~= old(out)@ + orig.subrange(0, i as int),
        decreases n - i,
    {
        let d = chunk.remove(0);
        proof {
            assert(d == orig[i as int]);
            assert(chunk@ =~= orig.skip(i + 1));
        }
        out.push(d);
        proof {
            assert(orig.subrange(0, i + 1) =~= orig.subrange(0, i as int).push(d));
        }
        i = i + 1;
    }
    proof {
        assert(orig.subrange(0, n as int) =~= orig);
        assert(out@ =~= old(out)@ + orig);
    }
}

/// Flatten per-index descriptor lists into one result list, in order.
/// Each input list stands on its own: however many of them are empty,
/// every other list's descriptors appear in the result unchanged.
pub fn aggregate_results(results: Vec<Vec<MrfFileInfo>>) -> (r: Vec<MrfFileInfo>)
    ensures
        r@.map_values(|d: MrfFileInfo| desc_model(d)) == flatten_models(
            results@.map_values(
                |v: Vec<MrfFileInfo>| v@.map_values(|d: MrfFileInfo| desc_model(d)),
            ),
        ),
{
    let ghost orig = results@;
    let mut results = results;
    let n = results.len();
    let mut out: Vec<MrfFileInfo> = Vec::new();
    proof {
        let cm = |v: Vec<MrfFileInfo>| v@.map_values(|d: MrfFileInfo| desc_model(d));
        assert(orig.skip(0) =~= orig);
        assert(out@.map_values(|d: MrfFileInfo| desc_model(d)) + flatten_models(
            orig.skip(0).map_values(cm),
        ) =~= flatten_models(orig.map_values(cm)));
    }
    let mut i: usize = 0;
    while i < n
        invariant
            i <= n,
            orig.len() == n,
            results@ =~= orig.skip(i as int),
            out@.map_values(|d: MrfFileInfo| desc_model(d)) + flatten_models(
                results@.map_values(
                    |v: Vec<MrfFileInfo>| v@.map_values(|d: MrfFileInfo| desc_model(d)),
                ),
            ) =~= flatten_models(
                orig.map_values(
                    |v: Vec<MrfFileInfo>| v@.map_values(|d: MrfFileInfo| desc_model(d)),
                ),
            ),
        decreases n - i,
    {
        let ghost before = out@;
        let chunk = results.remove(0);
        proof {
            let cm = |v: Vec<MrfFileInfo>| v@.map_values(|d: MrfFileInfo| desc_model(d));
            assert(chunk == orig[i as int]);
            assert(results@ =~= orig.skip(i + 1));
            let rsm = orig.skip(i as int).map_values(cm);
            assert(rsm[0] == cm(orig.skip(i as int)[0]));
            assert(orig.skip(i as int)[0] == orig[i as int]);
            assert(rsm.drop_first() =~= orig.skip(i + 1).map_values(cm));
            assert(flatten_models(rsm) == cm(chunk) + flatten_models(
                orig.skip(i + 1).map_values(cm),
            ));
        }
        append_all(&mut out, chunk);
        proof {
            let dm = |d: MrfFileInfo| desc_model(d);
            let cm = |v: Vec<MrfFileInfo>| v@.map_values(|d: MrfFileInfo| desc_model(d));
            assert(out@.map_values(dm) =~= before.map_values(dm) + chunk@.map_values(dm));
            assert(out@.map_values(dm) + flatten_models(results@.map_values(cm))
                =~= flatten_models(orig.map_values(cm)));
        }
        i = i + 1;
    }
    proof {
        let cm = |v: Vec<MrfFileInfo>| v@.map_values(|d: MrfFileInfo| desc_model(d));
        assert(results@.map_values(cm) =~= Seq::<Seq<DescriptorModel>>::empty());
        assert(flatten_models(results@.map_values(cm)) =~= Seq::<DescriptorModel>::empty());
        assert(out@.map_values(|d: MrfFileInfo| desc_model(d)) =~= flatten_models(
            orig.map_values(cm),
        ));
    }
    out
}

/// The states a discovery run passes through.
#[derive(Debug, Clone, Copy, PartialEq, Eq, Structural)]
pub enum DiscoveryState {
    /// Nothing has happened yet
    Idle,
    /// The manifest request is in flight
    FetchManifest,
    /// The manifest body is being parsed
    ParseManifest,
    /// Index files are being fetched concurrently
    FanOutIndexFiles,
    /// Per-index results are being flattened
    Aggregate,
    /// The run finished with a result
    Done,
    /// The manifest could not be fetched or parsed; the run is aborted
    Failed,
}

/// The contents of one collected slot, as a descriptor-model list.
pub open spec fn slot_models(o: Option<Vec<MrfFileInfo>>) -> Seq<DescriptorModel> {
    match o {
        Option::Some(v) => v@.map_values(|d: MrfFileInfo| desc_model(d)),
        Option::None => Seq::empty(),
    }
}

/// One discovery run: the manifest's entries and one result slot per
/// index file, filled as the concurrent fetches come back.
pub struct Discovery {
    /// Where the run stands
    pub state: DiscoveryState,
    /// The index files the manifest listed
    pub entries: Vec<IndexFileEntry>,
    /// One slot per index file, filled when its fetch finishes
    pub collected: Vec<Option<Vec<MrfFileInfo>>>,
    /// The fatal error, when the run failed
    pub failure: Option<SourceError>,
}

impl Discovery {
    /// The machine's invariant: while the fan-out runs there is exactly
    /// one slot per manifest entry, and a failed run carries its error.
    pub open spec fn wf(self) -> bool {
        &&& self.state == DiscoveryState::FanOutIndexFiles ==> self.collected@.len()
            == self.entries@.len()
        &&& self.state == DiscoveryState::Failed ==> self.failure is Some
    }

    /// A fresh, idle run.
    pub fn new() -> (r: Discovery)
        ensures
            r.wf(),
            r.state == DiscoveryState::Idle,
            r.entries@.len() == 0,
            r.collected@.len() == 0,
    {
        Discovery {
            state: DiscoveryState::Idle,
            entries: Vec::new(),
            collected: Vec::new(),
            failure: Option::None,
        }
    }

    /// Begin: the manifest request goes out.
    pub fn start(&mut self)
        requires
            old(self).state == DiscoveryState::Idle,
            old(self).wf(),
        ensures
            final(self).wf(),
            final(self).state == DiscoveryState::FetchManifest,
            final(self).entries@ == old(self).entries@,
    {
        self.state = DiscoveryState::FetchManifest;
    }

    /// The manifest request itself failed: the whole run is aborted.
    pub fn manifest_failed(&mut self, error: SourceError)
        requires
            old(self).state == DiscoveryState::FetchManifest,
            old(self).wf(),
        ensures
            final(self).wf(),
            final(self).state == DiscoveryState::Failed,
            final(self).failure == Option::Some(error),
    {
        self.state = DiscoveryState::Failed;
        self.failure = Option::Some(error);
    }

    /// The manifest body arrived: parse it.  A body that parses yields
    /// the index entries and opens the fan-out; one that does not aborts
    /// the run with a parse error.
    pub fn manifest_fetched(&mut self, body: &[u8])
        requires
            old(self).state == DiscoveryState::FetchManifest,
            old(self).wf(),
        ensures
            final(self).wf(),
            match manifest_model(body@) {
                Option::Some(m) => {
                    &&& final(self).state == DiscoveryState::FanOutIndexFiles
                    &&& final(self).entries@.map_values(
                        |e: IndexFileEntry| entry_model(e),
                    ) == m
                    &&& final(self).collected@.len() == final(self).entries@.len()
                    &&& forall|i: int|
                        0 <= i < final(self).collected@.len() ==> final(self).collected@[i]
                            is None
                },
                Option::None => {
                    &&& final(self).state == DiscoveryState::Failed
                    &&& final(self).failure matches Option::Some(e) && e matches
                        SourceError::Parse(_)
                },
            },
    {
        self.state = DiscoveryState::ParseManifest;
        match parse_manifest(body) {
            Result::Ok(entries) => {
                let n = entries.len();
                let mut collected: Vec<Option<Vec<MrfFileInfo>>> = Vec::new();
                let mut i: usize = 0;
                while i < n
                    invariant
                        i <= n,
                        collected@.len() == i,
                        forall|j: int| 0 <= j < i ==> collected@[j] is None,
                    decreases n - i,
                {
                    collected.push(Option::None);
                    i = i + 1;
                }
                self.entries = entries;
                self.collected = collected;
                self.state = DiscoveryState::FanOutIndexFiles;
            },
            Result::Err(e) => {
                self.failure = Option::Some(e);
                self.state = DiscoveryState::Failed;
            },
        }
    }

    /// One index fetch came back with a response: its slot takes whatever
    /// the body contributes, and no other slot moves.
    pub fn index_fetched(&mut self, i: usize, content_length: Option<u64>, body: &[u8])
        requires
            old(self).state == DiscoveryState::FanOutIndexFiles,
            old(self).wf(),
            i < old(self).entries@.len(),
        ensures
            final(self).wf(),
            final(self).state == DiscoveryState::FanOutIndexFiles,
            final(self).entries@ == old(self).entries@,
            final(self).collected@.len() == old(self).collected@.len(),
            forall|j: int|
                0 <= j < final(self).collected@.len() && j != i ==> final(self).collected@[j]
                    == old(self).collected@[j],
            final(self).collected@[i as int] matches Option::Some(v) && v@.map_values(
                |d: MrfFileInfo| desc_model(d),
            ) == index_result_model(content_length, body@, old(self).entries@[i as int].url@),
    {
        let url = self.entries[i].url.clone();
        let descriptors = index_descriptors_from_body(content_length, body, url.as_str());
        self.collected.set(i, Option::Some(descriptors));
    }

    /// One index fetch failed outright: its slot takes an empty result,
    /// and the run goes on.  A failed index file is never fatal.
    pub fn index_failed(&mut self, i: usize)
        requires
            old(self).state == DiscoveryState::FanOutIndexFiles,
            old(self).wf(),
            i < old(self).entries@.len(),
        ensures
            final(self).wf(),
            final(self).state == DiscoveryState::FanOutIndexFiles,
            final(self).entries@ == old(self).entries@,
            final(self).collected@.len() == old(self).collected@.len(),
            forall|j: int|
                0 <= j < final(self).collected@.len() && j != i ==> final(self).collected@[j]
                    == old(self).collected@[j],
            final(self).collected@[i as int] matches Option::Some(v) && v@.len() == 0,
    {
        self.collected.set(i, Option::Some(Vec::new()));
    }

    /// Whether every index file has reported back.
    pub fn all_collected(&self) -> (r: bool)
        requires
            self.wf(),
        ensures
            r == (forall|j: int|
                0 <= j < self.collected@.len() ==> #[trigger] self.collected@[j] is Some),
    {
        let n = self.collected.len();
        let mut i: usize = 0;
        while i < n
            invariant
                i <= n,
                n == self.collected@.len(),
                forall|j: int| 0 <= j < i ==> #[trigger] self.collected@[j] is Some,
            decreases n - i,
        {
            if self.collected[i].is_none() {
                return false;
            }
            i = i + 1;
        }
        true
    }

    /// Aggregate every slot into the run's result, in manifest order.
    pub fn finish(&mut self) -> (r: Vec<MrfFileInfo>)
        requires
            old(self).state == DiscoveryState::FanOutIndexFiles,
            old(self).wf(),
            forall|j: int|
                0 <= j < old(self).collected@.len() ==> #[trigger] old(self).collected@[j]
                    is Some,
        ensures
            final(self).wf(),
            final(self).state == DiscoveryState::Done,
            r@.map_values(|d: MrfFileInfo| desc_model(d)) == flatten_models(
                old(self).collected@.map_values(|o: Option<Vec<MrfFileInfo>>| slot_models(o)),
            ),
    {
        self.state = DiscoveryState::Aggregate;
        let ghost orig = self.collected@;
        let mut slots: Vec<Option<Vec<MrfFileInfo>>> = Vec::new();
        core::mem::swap(&mut slots, &mut self.collected);
        let n = slots.len();
        let mut lists: Vec<Vec<MrfFileInfo>> = Vec::new();
        let mut i: usize = 0;
        while i < n
            invariant
                i <= n,
                orig.len() == n,
                slots@ =~= orig.skip(i as int),
                lists@.len() == i,
                forall|j: int| 0 <= j < n ==> #[trigger] orig[j] is Some,
                forall|j: int|
                    0 <= j < i ==> Option::Some(#[trigger] lists@[j]) == orig[j],
            decreases n - i,
        {
            let s = slots.remove(0);
            proof {
                assert(s == orig[i as int]);
                assert(slots@ =~= orig.skip(i + 1));
            }
            match s {
                Option::Some(v) => {
                    lists.push(v);
                },
                Option::None => {
                    proof {
                        assert(false);
                    }
                },
            }
            i = i + 1;
        }
        let r = aggregate_results(lists);
        self.state = DiscoveryState::Done;
        proof {
            let cm = |v: Vec<MrfFileInfo>| v@.map_values(|d: MrfFileInfo| desc_model(d));
            let om = |o: Option<Vec<MrfFileInfo>>| slot_models(o);
            assert forall|j: int| 0 <= j < n implies lists@.map_values(cm)[j] == orig.map_values(
                om,
            )[j] by {
                assert(Option::Some(lists@[j]) == orig[j]);
            }
            assert(lists@.map_values(cm) =~= orig.map_values(om));
        }
        r
    }
}

} // verus!
