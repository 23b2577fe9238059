//! Frames: the snapshots of a run as the diagnostics read them.

use crate::machine::debug::{SnapshotV, StepSnapshot};
use crate::text::{
    contains, copy_strings, ends_with, first_position, lemma_first_position, split_once,
    split_whitespace, str_contains, str_ends_with, strings_view, tokens_of,
};
use vstd::prelude::*;

verus! {

/// One step of a run: what the machine recorded of it, and the place in the
/// source that the step's text names, if it names one.
#[derive(Clone, Debug, PartialEq, Eq)]
pub struct Frame {
    pub step: usize,
    pub state_type: String,
    pub term: String,
    pub environment: Vec<String>,
    pub context_depth: usize,
    pub cpu: i64,
    pub mem: i64,
    pub source_location: Option<String>,
}

/// The mathematical value of a [`Frame`].
pub struct FrameRecordV {
    pub step: nat,
    pub state_type: Seq<char>,
    pub term: Seq<char>,
    pub environment: Seq<Seq<char>>,
    pub context_depth: nat,
    pub cpu: int,
    pub mem: int,
    pub source_location: Option<Seq<char>>,
}

impl View for Frame {
    type V = FrameRecordV;

    open spec fn view(&self) -> FrameRecordV {
        FrameRecordV {
            step: self.step as nat,
            state_type: self.state_type@,
            term: self.term@,
            environment: strings_view(self.environment@),
            context_depth: self.context_depth as nat,
            cpu: self.cpu as int,
            mem: self.mem as int,
            source_location: match self.source_location {
                Some(location) => Some(location@),
                None => None,
            },
        }
    }
}

/// The frames of a list, in order.
pub open spec fn frames_view(frames: Seq<Frame>) -> Seq<FrameRecordV> {
    Seq::new(frames.len(), |i: int| frames[i]@)
}

/// A token names a place in a source file where it holds a colon and ends
/// with the extension of a source file.
pub open spec fn names_source(token: Seq<char>) -> bool {
    contains(token, ":"@) && ends_with(token, ".ak"@)
}

/// The first of `tokens` that names a place in a source file.
pub open spec fn first_source(tokens: Seq<Seq<char>>) -> Option<Seq<char>>
    decreases tokens.len(),
{
    if tokens.len() == 0 {
        None
    } else if names_source(tokens[0]) {
        Some(tokens[0])
    } else {
        first_source(tokens.drop_first())
    }
}

/// The place in the source that `text` names: the first of its tokens that
/// names one.
pub open spec fn source_location_of(text: Seq<char>) -> Option<Seq<char>> {
    first_source(tokens_of(text))
}

/// The frame of the snapshot `snapshot` at position `index` of a run.
pub open spec fn frame_of(index: nat, snapshot: SnapshotV) -> FrameRecordV {
    FrameRecordV {
        step: index,
        state_type: snapshot.state_type,
        term: snapshot.term,
        environment: snapshot.environment,
        context_depth: snapshot.context_depth,
        cpu: snapshot.cpu,
        mem: snapshot.mem,
        source_location: source_location_of(snapshot.term),
    }
}

/// The place in the source that `text` names, if it names one.
pub fn find_source_location(text: &str) -> (res: Option<String>)
    ensures
        match res {
            Some(location) => source_location_of(text@) == Some(location@),
            None => source_location_of(text@) is None,
        },
{
    let tokens = split_whitespace(text);
    let ghost all = tokens_of(text@);
    let mut i: usize = 0;
    assert(all.skip(0) =~= all);
    while i < tokens.len()
        invariant
            i <= tokens.len(),
            all == tokens_of(text@),
            strings_view(tokens@) == all,
            first_source(all.skip(i as int)) == first_source(all),
        decreases tokens.len() - i,
    {
        let token = &tokens[i];
        proof {
            let rest = all.skip(i as int);
            assert(rest[0] == token@);
            assert(rest.drop_first() =~= all.skip(i + 1));
        }
        if str_contains(token.as_str(), ":") && str_ends_with(token.as_str(), ".ak") {
            return Some(token.clone());
        }
        i = i + 1;
    }
    None
}

/// The frames of a run's snapshots: each frame holds what its snapshot
/// recorded, is numbered by its position, and names the place in the source
/// that the text of its term names.
pub fn parse_raw_frames(snapshots: &Vec<StepSnapshot>) -> (res: Vec<Frame>)
    ensures
        res.len() == snapshots.len(),
        forall|i: int|
            0 <= i < snapshots.len() ==> (#[trigger] res@[i])@ == frame_of(i as nat, snapshots@[i]@),
{
    let mut frames: Vec<Frame> = Vec::new();
    let mut i: usize = 0;
    while i < snapshots.len()
        invariant
            i <= snapshots.len(),
            frames.len() == i,
            forall|k: int|
                0 <= k < i ==> (#[trigger] frames@[k])@ == frame_of(k as nat, snapshots@[k]@),
        decreases snapshots.len() - i,
    {
        let snapshot = &snapshots[i];
        let frame = Frame {
            step: i,
            state_type: snapshot.state_type.clone(),
            term: snapshot.term.clone(),
            environment: copy_strings(&snapshot.environment),
            context_depth: snapshot.context_depth,
            cpu: snapshot.cpu,
            mem: snapshot.mem,
            source_location: find_source_location(snapshot.term.as_str()),
        };
        frames.push(frame);
        i = i + 1;
    }
    frames
}

/// The file of a place in the source: what stands before its first colon,
/// or all of it where it has none.
pub open spec fn file_of(location: Seq<char>) -> Seq<char> {
    location.subrange(0, first_position(location, ':') as int)
}

/// The source files that the frames name, in the order of the frames: for
/// each frame whose place in the source holds a colon, what stands before
/// the first one.
pub open spec fn source_files_of(frames: Seq<Frame>) -> Seq<Seq<char>>
    decreases frames.len(),
{
    if frames.len() == 0 {
        Seq::empty()
    } else {
        let before = source_files_of(frames.drop_last());
        match frames.last().source_location {
            Some(location) => if location@.contains(':') {
                before.push(file_of(location@))
            } else {
                before
            },
            None => before,
        }
    }
}

/// The source files that the frames name, in the order of the frames.
pub fn source_files(frames: &Vec<Frame>) -> (res: Vec<String>)
    ensures
        strings_view(res@) == source_files_of(frames@),
{
    let mut files: Vec<String> = Vec::new();
    let mut i: usize = 0;
    assert(frames@.subrange(0, 0) =~= Seq::<Frame>::empty());
    assert(strings_view(files@) =~= Seq::<Seq<char>>::empty());
    while i < frames.len()
        invariant
            i <= frames.len(),
            strings_view(files@) == source_files_of(frames@.subrange(0, i as int)),
        decreases frames.len() - i,
    {
        let ghost upto = frames@.subrange(0, i + 1);
        assert(upto.drop_last() =~= frames@.subrange(0, i as int));
        assert(upto.last() == frames@[i as int]);
        match &frames[i].source_location {
            None => {},
            Some(location) => match split_once(location.as_str(), ':') {
                None => {},
                Some((before, after)) => {
                    proof {
                        lemma_first_position(before@, ':', after@);
                        assert(location@[before@.len() as int] == ':');
                        assert(location@.subrange(0, before@.len() as int) =~= before@);
                    }
                    let ghost listed = strings_view(files@);
                    files.push(before);
                    assert(strings_view(files@) =~= listed.push(before@));
                },
            },
        }
        i = i + 1;
    }
    assert(frames@.subrange(0, i as int) =~= frames@);
    files
}

} // verus!
