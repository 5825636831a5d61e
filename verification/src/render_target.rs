//! Render tags and the decisions a render target takes on what Direct2D reports.
//!
//! Direct2D lets a caller attach two 64-bit tags to the drawing it issues and
//! hands the tags back with a failure, so that the failing drawing can be
//! found. A `TagTable` turns a `RenderTag` into such a pair and back.
use vstd::prelude::*;
use crate::error::{Error, hresult_succeeded};
use vstd::string::StringSliceAdditionalSpecFns;

verus! {

/// A source location attached to drawing, reported back when drawing fails.
#[derive(Copy, Clone, Debug)]
pub struct RenderTag {
    pub loc: &'static str,
}

/// The second tag written for a location: the byte length of its text.
pub open spec fn loc_tag_len(loc: Seq<char>) -> u64 {
    ((vstd::utf8::encode_utf8(loc).len() as usize) as u64)
}

/// The locations a table holds after `loc` was set: a new location is
/// appended, a known one keeps its place.
pub open spec fn tags_after_set(tags: Seq<Seq<char>>, loc: Seq<char>) -> Seq<Seq<char>> {
    if tags.contains(loc) {
        tags
    } else {
        tags.push(loc)
    }
}

/// The pair of tags written to Direct2D for `loc`: its position in the
/// table, counted from one, and its byte length.
pub open spec fn encoded_tag(tags: Seq<Seq<char>>, loc: Seq<char>) -> (u64, u64) {
    ((tags_after_set(tags, loc).index_of(loc) + 1) as u64, loc_tag_len(loc))
}

/// The location that a pair of tags read back from Direct2D names, if any:
/// none for a first tag of zero, which Direct2D reports when no tag was set.
pub open spec fn decoded_tag(tags: Seq<Seq<char>>, tag1: u64, tag2: u64) -> Option<Seq<char>> {
    if 1 <= tag1 <= tags.len() && loc_tag_len(tags[tag1 - 1]) == tag2 {
        Some(tags[tag1 - 1])
    } else {
        None
    }
}

/// Whether two texts are equal, compared byte by byte over their UTF-8.
fn same_text(a: &str, b: &str) -> (res: bool)
    ensures
        res == (a@ == b@),
{
    let x = a.as_bytes();
    let y = b.as_bytes();
    if x.len() != y.len() {
        return false;
    }
    let n = x.len();
    let mut i: usize = 0;
    while i < n
        invariant
            n == x@.len(),
            n == y@.len(),
            x@ == a.spec_bytes(),
            y@ == b.spec_bytes(),
            i <= n,
            forall|j: int| 0 <= j < i ==> x@[j] == y@[j],
        decreases n - i,
    {
        if x[i] != y[i] {
            return false;
        }
        i = i + 1;
    }
    proof {
        assert(x@ =~= y@);
        vstd::utf8::encode_utf8_decode_utf8(a@);
        vstd::utf8::encode_utf8_decode_utf8(b@);
    }
    true
}

/// The locations whose render tags have been written to Direct2D.
pub struct TagTable {
    locs: Vec<&'static str>,
}

impl View for TagTable {
    type V = Seq<Seq<char>>;

    closed spec fn view(&self) -> Seq<Seq<char>> {
        self.locs@.map_values(|s: &'static str| s@)
    }
}

impl TagTable {
    /// No location occurs twice.
    #[verifier::type_invariant]
    closed spec fn no_repeats(self) -> bool {
        self@.no_duplicates()
    }

    /// A table that holds no location.
    pub fn new() -> (res: TagTable)
        ensures
            res@ == Seq::<Seq<char>>::empty(),
    {
        let res = TagTable { locs: Vec::new() };
        assert(res@ =~= Seq::<Seq<char>>::empty());
        res
    }

    /// The number of locations the table holds.
    pub fn len(&self) -> (res: usize)
        ensures
            res == self@.len(),
    {
        self.locs.len()
    }

    /// The pair of tags to hand to Direct2D's `SetTags` for `tag`; records the
    /// tag's location so that the pair can be turned back into it.
    pub fn set_tag(&mut self, tag: RenderTag) -> (res: (u64, u64))
        requires
            old(self)@.len() < usize::MAX,
        ensures
            final(self)@ == tags_after_set(old(self)@, tag.loc@),
            res == encoded_tag(old(self)@, tag.loc@),
    {
        proof {
            use_type_invariant(&*self);
        }
        let ghost tags = self@;
        let n = self.locs.len();
        let mut i: usize = 0;
        while i < n
            invariant
                n == self.locs@.len(),
                self@ == tags,
                tags.len() == n,
                tags.no_duplicates(),
                i <= n,
                forall|j: int| 0 <= j < i ==> tags[j] != tag.loc@,
            decreases n - i,
        {
            if same_text(self.locs[i], tag.loc) {
                proof {
                    assert(tags[i as int] == tag.loc@);
                    assert(tags.contains(tag.loc@));
                    let k = tags.index_of(tag.loc@);
                    assert(0 <= k < tags.len() && tags[k] == tag.loc@);
                    assert(k == i);
                }
                return ((i + 1) as u64, tag.loc.len() as u64);
            }
            i = i + 1;
        }
        assert(!tags.contains(tag.loc@));
        let mut locs: Vec<&'static str> = Vec::new();
        std::mem::swap(&mut locs, &mut self.locs);
        locs.push(tag.loc);
        let ghost grown = locs@.map_values(|s: &'static str| s@);
        assert(grown =~= tags.push(tag.loc@));
        proof {
            let k = grown.index_of(tag.loc@);
            assert(grown[n as int] == tag.loc@);
            assert(0 <= k < grown.len() && grown[k] == tag.loc@);
            assert(k == n);
        }
        self.locs = locs;
        ((n + 1) as u64, tag.loc.len() as u64)
    }

    /// The render tag that a pair of tags read back from Direct2D names;
    /// `None` where the first tag is zero (no tag was set) or the pair was
    /// not written by this table.
    pub fn make_tag(&self, tag1: u64, tag2: u64) -> (res: Option<RenderTag>)
        ensures
            match res {
                Some(t) => decoded_tag(self@, tag1, tag2) == Some(t.loc@),
                None => decoded_tag(self@, tag1, tag2) is None,
            },
    {
        if tag1 == 0 || tag1 > self.locs.len() as u64 {
            return None;
        }
        let loc = self.locs[(tag1 - 1) as usize];
        if loc.len() as u64 == tag2 {
            Some(RenderTag { loc })
        } else {
            None
        }
    }

    /// What `EndDraw` or `Flush` returns for the `HRESULT` and the tags that
    /// Direct2D reported: `Ok` on success, else the error and the tag of the
    /// drawing that failed.
    pub fn draw_result(&self, hr: i32, tag1: u64, tag2: u64) -> (res: Result<(), (Error, Option<RenderTag>)>)
        ensures
            res is Ok <==> hresult_succeeded(hr),
            res is Ok <==> hr >= 0,
            match res {
                Ok(_) => true,
                Err((e, Some(t))) => e == Error::ComError(hr) && decoded_tag(self@, tag1, tag2) == Some(t.loc@),
                Err((e, None)) => e == Error::ComError(hr) && decoded_tag(self@, tag1, tag2) is None,
            },
    {
        if crate::error::succeeded(hr) {
            Ok(())
        } else {
            let tag = self.make_tag(tag1, tag2);
            Err((Error::ComError(hr), tag))
        }
    }
}

} // verus!

verus! {

/// Reading back the pair written for a location gives that location: the
/// tag that `get_tag`, `end_draw` or `flush` reports is the one last set.
/// The first tag written is never zero, so a set tag is never mistaken for
/// no tag, and a table that holds no location twice still holds none twice.
pub proof fn lemma_tag_round_trip(tags: Seq<Seq<char>>, loc: Seq<char>)
    requires
        tags.len() < usize::MAX,
    ensures
        encoded_tag(tags, loc).0 != 0,
        decoded_tag(tags_after_set(tags, loc), encoded_tag(tags, loc).0, encoded_tag(tags, loc).1)
            == Some(loc),
        tags.no_duplicates() ==> tags_after_set(tags, loc).no_duplicates(),
{
    let after = tags_after_set(tags, loc);
    if !tags.contains(loc) {
        assert(after[tags.len() as int] == loc);
    }
    assert(after.contains(loc));
    let k = after.index_of(loc);
    assert(0 <= k < after.len() && after[k] == loc);
}

/// Setting a tag keeps what every pair written before it reads back as.
pub proof fn lemma_set_keeps_earlier_tags(tags: Seq<Seq<char>>, loc: Seq<char>, tag1: u64, tag2: u64)
    requires
        decoded_tag(tags, tag1, tag2) is Some,
    ensures
        decoded_tag(tags_after_set(tags, loc), tag1, tag2) == decoded_tag(tags, tag1, tag2),
{
}

/// A first tag of zero, which Direct2D reports when no tag was set, reads
/// back as no tag.
pub proof fn lemma_zero_tag_is_none(tags: Seq<Seq<char>>, tag2: u64)
    ensures
        decoded_tag(tags, 0, tag2) is None,
{
}

} // verus!
