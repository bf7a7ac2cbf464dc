//! The file container: a header chunk followed by as many track chunks as
//! the header declares.  Bytes after the last declared track are tolerated
//! and left unconsumed.

use crate::errors::CodecError;
use crate::header::{header_chunk_bytes, header_chunk_parse, HeaderChunk, HeaderChunkView};
use crate::track::{track_chunk_bytes, track_chunk_parse, TrackChunk, TrackChunkView};
use vstd::prelude::*;

verus! {

/// A whole file: the header and its tracks.
#[derive(Debug, PartialEq, Eq, Clone)]
pub struct MidiFile {
    pub header: HeaderChunk,
    pub tracks: Vec<TrackChunk>,
}

/// The mathematical shape of a file.
#[verifier::ext_equal]
pub struct MidiFileView {
    pub header: HeaderChunkView,
    pub tracks: Seq<TrackChunkView>,
}

impl View for MidiFile {
    type V = MidiFileView;

    open spec fn view(&self) -> MidiFileView {
        MidiFileView { header: self.header@, tracks: self.tracks.deep_view() }
    }
}

impl MidiFileView {
    /// The header is well-formed, declares exactly the tracks present, and
    /// every track is well-formed.
    pub open spec fn wf(self) -> bool {
        &&& self.header.wf()
        &&& self.header.data.ntrks == self.tracks.len()
        &&& forall|i: int| 0 <= i < self.tracks.len() ==> (#[trigger] self.tracks[i]).wf()
    }
}

/// What decoding `n` consecutive track chunks from `pos` yields.
pub open spec fn tracks_parse(s: Seq<u8>, pos: int, n: nat) -> Result<
    (Seq<TrackChunkView>, int),
    CodecError,
>
    decreases n,
{
    if n == 0 {
        Ok((Seq::empty(), pos))
    } else {
        match track_chunk_parse(s, pos) {
            Err(e) => Err(e),
            Ok((t, end)) => match tracks_parse(s, end, (n - 1) as nat) {
                Err(e) => Err(e),
                Ok((rest, fin)) => Ok((seq![t] + rest, fin)),
            },
        }
    }
}

/// What decoding a whole file yields: the header chunk, then as many track
/// chunks as it declares, and the position where they end.
pub open spec fn midi_file_parse(s: Seq<u8>) -> Result<(MidiFileView, int), CodecError> {
    match header_chunk_parse(s, 0) {
        Err(e) => Err(e),
        Ok((header, hend)) => match tracks_parse(s, hend, header.data.ntrks as nat) {
            Err(e) => Err(e),
            Ok((tracks, fin)) => Ok((MidiFileView { header, tracks }, fin)),
        },
    }
}

/// The concatenated encodings of a run of track chunks.
pub open spec fn tracks_bytes(ts: Seq<TrackChunkView>) -> Seq<u8>
    decreases ts.len(),
{
    if ts.len() == 0 {
        Seq::empty()
    } else {
        track_chunk_bytes(ts[0]) + tracks_bytes(ts.drop_first())
    }
}

/// The encoding of a whole file: the header chunk, then every track chunk.
pub open spec fn midi_file_bytes(v: MidiFileView) -> Seq<u8> {
    header_chunk_bytes(v.header) + tracks_bytes(v.tracks)
}

/// Appending a track chunk extends the encoding by that chunk's bytes.
pub proof fn lemma_tracks_bytes_push(ts: Seq<TrackChunkView>, x: TrackChunkView)
    ensures
        tracks_bytes(ts.push(x)) == tracks_bytes(ts) + track_chunk_bytes(x),
    decreases ts.len(),
{
    assert(ts.push(x)[0] == if ts.len() == 0 {
        x
    } else {
        ts[0]
    });
    if ts.len() == 0 {
        assert(ts.push(x).drop_first() =~= Seq::<TrackChunkView>::empty());
        assert(tracks_bytes(Seq::<TrackChunkView>::empty()) == Seq::<u8>::empty());
        assert(tracks_bytes(ts.push(x)) == track_chunk_bytes(x) + tracks_bytes(
            Seq::<TrackChunkView>::empty(),
        ));
        assert(track_chunk_bytes(x) + Seq::<u8>::empty() =~= track_chunk_bytes(x));
        assert(tracks_bytes(ts) + track_chunk_bytes(x) =~= track_chunk_bytes(x));
    } else {
        lemma_tracks_bytes_push(ts.drop_first(), x);
        assert(ts.push(x).drop_first() =~= ts.drop_first().push(x));
        assert(tracks_bytes(ts.push(x)) =~= tracks_bytes(ts) + track_chunk_bytes(x));
    }
}

impl MidiFile {
    /// Decodes a whole file from the start of `bytes`, returning it and the
    /// position just past the last declared track; trailing bytes are left
    /// unconsumed.
    pub fn parse(bytes: &[u8]) -> (r: Result<(Self, usize), CodecError>)
        ensures
            match midi_file_parse(bytes@) {
                Ok((v, end)) => r matches Ok(p) && p.0@ == v && p.1 == end && end <= bytes@.len(),
                Err(e) => r matches Err(e2) && e2 == e,
            },
    {
        let (header, hend) = HeaderChunk::parse(bytes, 0)?;
        let ntrks: u16 = header.data.ntrks;
        let mut tracks: Vec<TrackChunk> = Vec::new();
        let mut pos: usize = hend;
        let mut i: u16 = 0;
        while i < ntrks
            invariant
                i <= ntrks,
                pos <= bytes@.len(),
                ntrks == header@.data.ntrks,
                header_chunk_parse(bytes@, 0) matches Ok(h) && h.0 == header@ && h.1
                    == hend as int,
                match tracks_parse(bytes@, pos as int, (ntrks - i) as nat) {
                    Ok((rest, fin)) => tracks_parse(bytes@, hend as int, ntrks as nat) == Ok::<
                        (Seq<TrackChunkView>, int),
                        CodecError,
                    >((tracks.deep_view() + rest, fin)),
                    Err(e) => tracks_parse(bytes@, hend as int, ntrks as nat) == Err::<
                        (Seq<TrackChunkView>, int),
                        CodecError,
                    >(e),
                },
            decreases ntrks - i,
        {
            assert(tracks.deep_view() + Seq::<TrackChunkView>::empty() =~= tracks.deep_view());
            match TrackChunk::parse(bytes, pos) {
                Err(e) => {
                    return Err(e);
                },
                Ok((t, end)) => {
                    let ghost old_tracks = tracks.deep_view();
                    tracks.push(t);
                    proof {
                        assert(tracks.deep_view() =~= old_tracks.push(tracks@[tracks@.len() - 1]@));
                        match tracks_parse(bytes@, end as int, (ntrks - i - 1) as nat) {
                            Ok((rest, fin)) => {
                                assert(old_tracks + (seq![tracks.deep_view().last()] + rest)
                                    =~= tracks.deep_view() + rest);
                            },
                            Err(e) => {},
                        }
                    }
                    pos = end;
                    i = i + 1;
                },
            }
        }
        assert(tracks_parse(bytes@, pos as int, 0) == Ok::<(Seq<TrackChunkView>, int), CodecError>(
            (Seq::empty(), pos as int),
        ));
        assert(tracks.deep_view() + Seq::<TrackChunkView>::empty() =~= tracks.deep_view());
        let file = Self { header, tracks };
        assert(file@ =~= midi_file_parse(bytes@)->Ok_0.0);
        Ok((file, pos))
    }

    /// Decides well-formedness at run time.
    pub fn check_wf(&self) -> (r: bool)
        ensures
            r == self@.wf(),
    {
        if !self.header.check_wf() {
            return false;
        }
        if (self.header.data.ntrks as usize) != self.tracks.len() {
            return false;
        }
        let mut i: usize = 0;
        while i < self.tracks.len()
            invariant
                i <= self.tracks@.len(),
                forall|j: int| 0 <= j < i ==> (#[trigger] self.tracks.deep_view()[j]).wf(),
            decreases self.tracks@.len() - i,
        {
            assert(self.tracks.deep_view()[i as int] == self.tracks@[i as int]@);
            if !self.tracks[i].check_wf() {
                return false;
            }
            i = i + 1;
        }
        true
    }

    /// Encodes the file after checking it is well-formed; a value that is
    /// not yields nothing.
    pub fn try_to_bytes(&self) -> (r: Option<Vec<u8>>)
        ensures
            self@.wf() ==> (r matches Some(b) && b@ == midi_file_bytes(self@)),
            !self@.wf() ==> r is None,
    {
        if self.check_wf() {
            Some(self.to_bytes())
        } else {
            None
        }
    }

    /// Encodes the file: the header chunk, then every track chunk in order.
    pub fn to_bytes(&self) -> (r: Vec<u8>)
        requires
            self@.wf(),
        ensures
            r@ == midi_file_bytes(self@),
    {
        let mut r = self.header.to_bytes();
        let mut i: usize = 0;
        while i < self.tracks.len()
            invariant
                i <= self.tracks@.len(),
                self@.wf(),
                r@ == header_chunk_bytes(self@.header) + tracks_bytes(
                    self.tracks.deep_view().subrange(0, i as int),
                ),
            decreases self.tracks@.len() - i,
        {
            let ghost done = self.tracks.deep_view().subrange(0, i as int);
            assert(self.tracks.deep_view()[i as int] == self.tracks@[i as int]@);
            assert(self@.tracks[i as int].wf());
            let mut t_bytes = self.tracks[i].to_bytes();
            r.append(&mut t_bytes);
            proof {
                lemma_tracks_bytes_push(done, self.tracks.deep_view()[i as int]);
                assert(self.tracks.deep_view().subrange(0, i + 1) =~= done.push(
                    self.tracks.deep_view()[i as int],
                ));
            }
            i = i + 1;
        }
        assert(self.tracks.deep_view().subrange(0, self.tracks@.len() as int)
            =~= self.tracks.deep_view());
        r
    }
}

} // verus!
