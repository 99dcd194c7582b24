//! Frame engine for a deterministic spawn sequence: a 128-bit-state generator,
//! attribute derivation for raid and overworld encounters, constraint filters,
//! and a bounded search over the advance sequence.
use vstd::prelude::*;

pub mod filter;
pub mod frame;
pub mod mon;
pub mod overworld;
pub mod personal;
pub mod raid;
pub mod rng;

use crate::filter::FrameFilter;
use crate::frame::{spec_frame, spec_matches, Frame, FrameGenerator, FrameResult};
use crate::raid::Raid;
use crate::rng::seed_after_resets;

verus! {

/// A found frame and its distance (skip count) from the start seed.
#[derive(PartialEq, Eq, Structural, Debug, Copy, Clone)]
pub struct SearchResult(pub u32, pub Frame);

/// How many positions a search walks before giving up: the search space is
/// unbounded, so an unsatisfiable filter must still terminate.
pub const MAX_FRAMES_TO_SEARCH: usize = 100_000_000;

/// The frame at position `i` of the short-seed sequence started at `seed`.
pub open spec fn spec_frame_at(seed: u64, raid: Raid, i: nat) -> Frame {
    spec_frame(seed_after_resets(seed, i), raid)
}

/// Lists the first `num_frames` frames of the sequence started at `seed`.
pub fn list_frames(raid: Raid, seed: u64, num_frames: usize) -> (r: Vec<FrameResult>)
    requires
        raid.wf(),
    ensures
        r@.len() == num_frames,
        forall|i: int|
            0 <= i < num_frames ==> r@[i] == FrameResult::Pass(
                #[trigger] spec_frame_at(seed, raid, i as nat),
            ),
{
    let mut f = FrameGenerator::new(raid, seed);
    let mut frames: Vec<FrameResult> = Vec::new();
    let mut i: usize = 0;
    while i < num_frames
        invariant
            i <= num_frames,
            frames@.len() == i,
            f.wf(),
            f.raid == raid,
            f.filter == Option::<FrameFilter>::None,
            f.seed == seed_after_resets(seed, i as nat),
            forall|j: int|
                0 <= j < i ==> frames@[j] == FrameResult::Pass(
                    #[trigger] spec_frame_at(seed, raid, j as nat),
                ),
        decreases num_frames - i,
    {
        let ghost pre_seed = f.seed;
        let result = match f.next() {
            Some(result) => result,
            None => vstd::pervasive::unreached(),
        };
        frames.push(result);
        proof {
            crate::rng::lemma_seed_at_offset_counts_resets(pre_seed, 1);
            assert(seed_after_resets(seed, (i + 1) as nat) == vstd::wrapping::u64_specs::wrapping_add(
                seed_after_resets(seed, i as nat),
                crate::rng::MAGIC_SEED,
            ));
            assert(seed_after_resets(pre_seed, 1) == vstd::wrapping::u64_specs::wrapping_add(
                pre_seed,
                crate::rng::MAGIC_SEED,
            ));
        }
        i = i + 1;
    }
    frames
}

/// Searches the sequence started at `seed` for the first frame passing the
/// filter, walking at most `limit` positions: the passing frame and its
/// position, or nothing when no frame within the limit passes.
pub fn search_with_limit(raid: Raid, seed: u64, filter: FrameFilter, limit: usize) -> (r: Option<
    SearchResult,
>)
    requires
        raid.wf(),
        limit <= 0xffff_ffff,
    ensures
        r.is_some() ==> (r->0).0 < limit && r->0 == SearchResult(
            (r->0).0,
            spec_frame_at(seed, raid, (r->0).0 as nat),
        ) && spec_matches(filter, spec_frame_at(seed, raid, (r->0).0 as nat)) && forall|j: int|
            0 <= j < (r->0).0 ==> !spec_matches(
                filter,
                #[trigger] spec_frame_at(seed, raid, j as nat),
            ),
        r.is_none() ==> forall|j: int|
            0 <= j < limit ==> !spec_matches(filter, #[trigger] spec_frame_at(seed, raid, j as nat)),
{
    let mut f = FrameGenerator::new(raid, seed);
    f.set_filter(filter);

    let mut i: usize = 0;
    while i < limit
        invariant
            i <= limit <= 0xffff_ffff,
            f.wf(),
            f.raid == raid,
            f.filter == Some(filter),
            f.seed == seed_after_resets(seed, i as nat),
            forall|j: int|
                0 <= j < i ==> !spec_matches(
                    filter,
                    #[trigger] spec_frame_at(seed, raid, j as nat),
                ),
        decreases limit - i,
    {
        let ghost pre_seed = f.seed;
        let result = match f.next() {
            Some(result) => result,
            None => vstd::pervasive::unreached(),
        };
        proof {
            crate::rng::lemma_seed_at_offset_counts_resets(pre_seed, 1);
            assert(seed_after_resets(seed, (i + 1) as nat) == vstd::wrapping::u64_specs::wrapping_add(
                seed_after_resets(seed, i as nat),
                crate::rng::MAGIC_SEED,
            ));
            assert(seed_after_resets(pre_seed, 1) == vstd::wrapping::u64_specs::wrapping_add(
                pre_seed,
                crate::rng::MAGIC_SEED,
            ));
        }
        if let FrameResult::Pass(frame) = result {
            return Some(SearchResult(i as u32, frame));
        }
        i = i + 1;
    }
    None
}

/// Searches for a frame matching the given filter, under the fixed
/// iteration ceiling.
pub fn search(raid: Raid, seed: u64, filter: FrameFilter) -> (r: Option<SearchResult>)
    requires
        raid.wf(),
    ensures
        r.is_some() ==> (r->0).0 < MAX_FRAMES_TO_SEARCH && r->0 == SearchResult(
            (r->0).0,
            spec_frame_at(seed, raid, (r->0).0 as nat),
        ) && spec_matches(filter, spec_frame_at(seed, raid, (r->0).0 as nat)) && forall|j: int|
            0 <= j < (r->0).0 ==> !spec_matches(
                filter,
                #[trigger] spec_frame_at(seed, raid, j as nat),
            ),
        r.is_none() ==> forall|j: int|
            0 <= j < MAX_FRAMES_TO_SEARCH ==> !spec_matches(
                filter,
                #[trigger] spec_frame_at(seed, raid, j as nat),
            ),
{
    search_with_limit(raid, seed, filter, MAX_FRAMES_TO_SEARCH)
}

} // verus!
