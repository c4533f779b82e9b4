use vstd::prelude::*;
use vstd::slice::slice_to_vec;
use vstd::string::StringSliceAdditionalSpecFns;
use vstd::utf8::*;

use crate::fs_str::FsStr;

verus! {

broadcast use encode_utf8_valid_utf8;

/// The byte that separates the components of a path (`/`).
pub const SEPARATOR: u8 = 0x2f;

/// The byte that starts an extension (`.`).
pub const EXTENSION_MARK: u8 = 0x2e;

/// The pieces of `b` between separators, left to right. Splitting never
/// drops a piece: an empty path has one empty component, and a leading or
/// trailing separator gives an empty component at that end.
pub open spec fn segments(b: Seq<u8>) -> Seq<Seq<u8>>
    decreases b.len(),
{
    if b.len() == 0 {
        seq![Seq::empty()]
    } else {
        let init = segments(b.drop_last());
        if b.last() == SEPARATOR {
            init.push(Seq::empty())
        } else {
            init.update(init.len() - 1, init.last().push(b.last()))
        }
    }
}

/// The index of the last extension mark in `name`, or -1 where it has none.
pub open spec fn last_mark(name: Seq<u8>) -> int
    decreases name.len(),
{
    if name.len() == 0 {
        -1
    } else if name.last() == EXTENSION_MARK {
        name.len() - 1
    } else {
        last_mark(name.drop_last())
    }
}

/// `name` without its extension: the bytes before its last extension mark,
/// or all of `name` where it has no mark.
pub open spec fn stem(name: Seq<u8>) -> Seq<u8> {
    if last_mark(name) < 0 {
        name
    } else {
        name.subrange(0, last_mark(name))
    }
}

/// A path always has at least one component.
pub proof fn lemma_segments_nonempty(b: Seq<u8>)
    ensures
        segments(b).len() >= 1,
    decreases b.len(),
{
    if b.len() > 0 {
        lemma_segments_nonempty(b.drop_last());
    }
}

proof fn lemma_last_mark_bounds(name: Seq<u8>)
    ensures
        -1 <= last_mark(name) < name.len(),
        last_mark(name) >= 0 ==> name[last_mark(name)] == EXTENSION_MARK,
    decreases name.len(),
{
    if name.len() > 0 && name.last() != EXTENSION_MARK {
        lemma_last_mark_bounds(name.drop_last());
    }
}

proof fn lemma_last_mark_is(name: Seq<u8>, m: int)
    requires
        -1 <= m < name.len(),
        m >= 0 ==> name[m] == EXTENSION_MARK,
        forall|k: int| m < k < name.len() ==> name[k] != EXTENSION_MARK,
    ensures
        last_mark(name) == m,
    decreases name.len(),
{
    if name.len() > 0 && name.len() - 1 != m {
        lemma_last_mark_is(name.drop_last(), m);
    }
}

/// In valid UTF-8, the position right after an ASCII byte starts a character.
proof fn lemma_boundary_after_ascii(bytes: Seq<u8>, k: int)
    requires
        valid_utf8(bytes),
        0 <= k < bytes.len(),
        bytes[k] < 0x80,
    ensures
        is_char_boundary(bytes, k + 1),
{
    if k + 1 == bytes.len() {
        is_char_boundary_start_end_of_seq(bytes);
    } else {
        is_char_boundary_iff_is_leading_byte(bytes, k);
        valid_utf8_split(bytes, k);
        let s1 = bytes.subrange(k, bytes.len() as int);
        assert(length_of_first_scalar(s1) == 1);
        let s2 = pop_first_scalar(s1);
        assert(s2 =~= bytes.subrange(k + 1, bytes.len() as int));
        assert(valid_utf8(s2));
        assert(is_char_boundary(s2, 0));
        is_char_boundary_iff_not_is_continuation_byte(s2, 0);
        is_char_boundary_iff_not_is_continuation_byte(bytes, k + 1);
    }
}

/// In valid UTF-8, an ASCII byte starts a character.
proof fn lemma_boundary_at_ascii(bytes: Seq<u8>, k: int)
    requires
        valid_utf8(bytes),
        0 <= k < bytes.len(),
        bytes[k] < 0x80,
    ensures
        is_char_boundary(bytes, k),
{
    is_char_boundary_iff_is_leading_byte(bytes, k);
}

/// The views of a list of names.
pub open spec fn views_of<'a>(names: Seq<FsStr<'a>>) -> Seq<Seq<u8>> {
    names.map_values(|n: FsStr<'a>| n@)
}

/// The components of a path, handed out by `next` from the last one to the
/// first. Each call removes the component it returns.
pub struct Components<'a> {
    inner: Vec<FsStr<'a>>,
}

impl<'a> View for Components<'a> {
    type V = Seq<Seq<u8>>;

    /// The components not handed out yet, in their order in the path.
    closed spec fn view(&self) -> Seq<Seq<u8>> {
        views_of(self.inner@)
    }
}

impl<'a> Components<'a> {
    /// The last component that is left, which is removed.
    pub fn next(&mut self) -> (r: Option<FsStr<'a>>)
        ensures
            old(self)@.len() == 0 ==> r is None && final(self)@ == old(self)@,
            old(self)@.len() > 0 ==> r is Some && r->0@ == old(self)@.last() && final(self)@
                == old(self)@.drop_last(),
    {
        let r = self.inner.pop();
        proof {
            if old(self).inner@.len() > 0 {
                assert(views_of(self.inner@) =~= views_of(old(self).inner@).drop_last());
            }
        }
        r
    }

    /// The component that `next` would hand out last (the first in the
    /// path); the rest are dropped.
    pub fn last(self) -> (r: Option<FsStr<'a>>)
        ensures
            self@.len() == 0 ==> r is None,
            self@.len() > 0 ==> r is Some && r->0@ == self@[0],
    {
        if self.inner.len() == 0 {
            None
        } else {
            Some(self.inner[0])
        }
    }
}

/// A borrowed path: a name made of components separated by `/`.
#[derive(Clone, Copy)]
pub struct Path<'a> {
    inner: FsStr<'a>,
}

impl<'a> View for Path<'a> {
    type V = Seq<u8>;

    closed spec fn view(&self) -> Seq<u8> {
        self.inner@
    }
}

impl<'a> Path<'a> {
    /// Views the text `s` as a path, without copying it.
    pub fn new(s: &'a str) -> (r: Path<'a>)
        ensures
            r@ == s.spec_bytes(),
    {
        Path { inner: FsStr::new(s) }
    }

    pub fn as_fs_str(&self) -> (r: &FsStr<'a>)
        ensures
            r@ == self@,
    {
        &self.inner
    }

    pub fn as_mut_fs_str(&mut self) -> (r: &mut FsStr<'a>)
        ensures
            r@ == old(self)@,
    {
        &mut self.inner
    }

    /// The components of the path: the text split at every separator.
    pub fn iter(&self) -> (r: Components<'a>)
        ensures
            r@ == segments(self@),
    {
        let text: &'a str = self.inner.to_str();
        let bytes: &'a [u8] = text.as_bytes();
        let mut out: Vec<FsStr<'a>> = Vec::new();
        let mut rest: &'a str = text;
        let mut start: usize = 0;
        let mut i: usize = 0;
        proof {
            assert(bytes@.subrange(0, 0) =~= Seq::<u8>::empty());
            assert(views_of(out@) =~= Seq::<Seq<u8>>::empty());
            assert(rest.spec_bytes() =~= bytes@.subrange(0, bytes@.len() as int));
        }
        while i < bytes.len()
            invariant
                bytes@ == self@,
                bytes@ == text.spec_bytes(),
                start <= i <= bytes@.len(),
                rest.spec_bytes() == bytes@.subrange(start as int, bytes@.len() as int),
                segments(bytes@.subrange(0, i as int)) == views_of(out@).push(
                    bytes@.subrange(start as int, i as int),
                ),
            decreases bytes@.len() - i,
        {
            let ghost b = bytes@;
            let ghost seg_before = b.subrange(start as int, i as int);
            proof {
                assert(b.subrange(0, i + 1).drop_last() =~= b.subrange(0, i as int));
                assert(b.subrange(0, i + 1).last() == b[i as int]);
            }
            if bytes[i] == SEPARATOR {
                let mid: usize = i - start;
                proof {
                    let rb = rest.spec_bytes();
                    assert(rb[mid as int] == b[i as int]);
                    lemma_boundary_at_ascii(rb, mid as int);
                    lemma_boundary_after_ascii(rb, mid as int);
                }
                let (seg, _) = rest.split_at(mid);
                let (_, tail) = rest.split_at(mid + 1);
                let name = FsStr::new(seg);
                let ghost out_before = out@;
                out.push(name);
                rest = tail;
                start = i + 1;
                proof {
                    assert(seg.spec_bytes() =~= seg_before);
                    assert(views_of(out@) =~= views_of(out_before).push(seg_before));
                    assert(rest.spec_bytes() =~= b.subrange(start as int, b.len() as int));
                    assert(b.subrange(start as int, i + 1) =~= Seq::<u8>::empty());
                }
            } else {
                proof {
                    assert(b.subrange(start as int, i + 1) =~= seg_before.push(b[i as int]));
                    assert(views_of(out@).push(seg_before).update(
                        views_of(out@).len() as int,
                        seg_before.push(b[i as int]),
                    ) =~= views_of(out@).push(b.subrange(start as int, i + 1)));
                }
            }
            i += 1;
        }
        let ghost out_before = out@;
        out.push(FsStr::new(rest));
        proof {
            assert(bytes@.subrange(0, bytes@.len() as int) =~= bytes@);
            assert(views_of(out@) =~= views_of(out_before).push(rest.spec_bytes()));
        }
        Components { inner: out }
    }

    /// The component that iteration reaches last, without its extension.
    ///
    /// Iteration runs from the last component to the first, so this is the
    /// first component of the path. The extension is the run from the last
    /// `.` to the end; a component without a `.` is returned whole.
    pub fn file_name(&self) -> (r: Option<FsStr<'a>>)
        ensures
            r is None <==> segments(self@).len() == 0,
            r matches Some(n) ==> n@ == stem(segments(self@)[0]),
    {
        proof {
            lemma_segments_nonempty(self@);
        }
        let end = match self.iter().last() {
            None => return None,
            Some(e) => e,
        };
        let text: &'a str = end.to_str();
        let bytes: &'a [u8] = text.as_bytes();
        let mut j: usize = bytes.len();
        while j > 0
            invariant
                j <= bytes@.len(),
                bytes@ == end@,
                bytes@ == text.spec_bytes(),
                segments(self@).len() >= 1,
                end@ == segments(self@)[0],
                forall|k: int| j <= k < bytes@.len() ==> bytes@[k] != EXTENSION_MARK,
            decreases j,
        {
            if bytes[j - 1] == EXTENSION_MARK {
                proof {
                    lemma_last_mark_is(bytes@, j - 1);
                    lemma_boundary_at_ascii(bytes@, j - 1);
                }
                let (before, _) = text.split_at(j - 1);
                proof {
                    assert(before.spec_bytes() =~= stem(bytes@));
                }
                return Some(FsStr::new(before));
            }
            j -= 1;
        }
        proof {
            lemma_last_mark_is(bytes@, -1);
        }
        Some(end)
    }

    /// An owned copy of the path.
    pub fn into_path_buf(self) -> (r: PathBuf)
        ensures
            r@ == self@,
    {
        PathBuf { inner: slice_to_vec(self.inner.to_bytes()) }
    }
}

/// An owned, growable path. Its bytes carry no terminator; one is added only
/// by `as_cstring`.
pub struct PathBuf {
    inner: Vec<u8>,
}

impl View for PathBuf {
    type V = Seq<u8>;

    closed spec fn view(&self) -> Seq<u8> {
        self.inner@
    }
}

/// Relies on Vec::reserve_exact: it changes the capacity only, never the
/// contents.
#[verifier::external_body]
fn vec_reserve_exact(v: &mut Vec<u8>, additional: usize)
    ensures
        final(v)@ == old(v)@,
{
    v.reserve_exact(additional)
}

/// Relies on Vec::try_reserve_exact: it changes the capacity only, never the
/// contents, whether or not it succeeds.
#[verifier::external_body]
fn vec_try_reserve_exact(v: &mut Vec<u8>, additional: usize) -> (r: Result<
    (),
    std::collections::TryReserveError,
>)
    ensures
        final(v)@ == old(v)@,
{
    v.try_reserve_exact(additional)
}

/// Relies on Vec::shrink_to_fit: it changes the capacity only, never the
/// contents.
#[verifier::external_body]
fn vec_shrink_to_fit(v: &mut Vec<u8>)
    ensures
        final(v)@ == old(v)@,
{
    v.shrink_to_fit()
}

/// Relies on Vec::shrink_to: it changes the capacity only, never the
/// contents.
#[verifier::external_body]
fn vec_shrink_to(v: &mut Vec<u8>, min_capacity: usize)
    ensures
        final(v)@ == old(v)@,
{
    v.shrink_to(min_capacity)
}

impl PathBuf {
    pub fn new() -> (r: PathBuf)
        ensures
            r@ == Seq::<u8>::empty(),
    {
        PathBuf { inner: Vec::new() }
    }

    /// An empty path with room for `capacity` bytes.
    pub fn with_capacity(capacity: usize) -> (r: PathBuf)
        ensures
            r@ == Seq::<u8>::empty(),
    {
        PathBuf { inner: Vec::with_capacity(capacity) }
    }

    /// Appends the bytes of `path` as they are; no separator is added.
    pub fn push(&mut self, path: &Path)
        ensures
            final(self)@ == old(self)@ + path@,
    {
        let mut bytes = slice_to_vec(path.as_fs_str().to_bytes());
        self.inner.append(&mut bytes);
    }

    /// Removes the last byte, if there is one.
    pub fn pop(&mut self)
        ensures
            old(self)@.len() == 0 ==> final(self)@ == old(self)@,
            old(self)@.len() > 0 ==> final(self)@ == old(self)@.drop_last(),
    {
        self.inner.pop();
    }

    /// A fresh copy of the bytes followed by a single nul byte, the form in
    /// which the storage engine takes a path.
    pub fn as_cstring(&self) -> (r: Vec<u8>)
        ensures
            r@ == self@.push(0u8),
    {
        let mut bytes = self.inner.clone();
        bytes.push(0u8);
        bytes
    }

    pub fn reserve(&mut self, additional: usize)
        ensures
            final(self)@ == old(self)@,
    {
        self.inner.reserve(additional);
    }

    /// Like `reserve`, but reports a failed allocation instead of aborting.
    pub fn try_reserve(&mut self, additional: usize) -> (r: Result<
        (),
        std::collections::TryReserveError,
    >)
        ensures
            final(self)@ == old(self)@,
    {
        self.inner.try_reserve(additional)
    }

    pub fn reserve_exact(&mut self, additional: usize)
        ensures
            final(self)@ == old(self)@,
    {
        vec_reserve_exact(&mut self.inner, additional);
    }

    /// Like `reserve_exact`, but reports a failed allocation instead of
    /// aborting.
    pub fn try_reserve_exact(&mut self, additional: usize) -> (r: Result<
        (),
        std::collections::TryReserveError,
    >)
        ensures
            final(self)@ == old(self)@,
    {
        vec_try_reserve_exact(&mut self.inner, additional)
    }

    pub fn shrink_to_fit(&mut self)
        ensures
            final(self)@ == old(self)@,
    {
        vec_shrink_to_fit(&mut self.inner);
    }

    pub fn shrink_to(&mut self, min_capacity: usize)
        ensures
            final(self)@ == old(self)@,
    {
        vec_shrink_to(&mut self.inner, min_capacity);
    }
}

/// Pushing a path onto a new buffer and then terminating it gives the
/// path's bytes followed by exactly one nul; the buffer itself holds the
/// path's bytes alone, with no nul.
pub proof fn lemma_push_then_terminate(p: Seq<u8>)
    ensures
        (Seq::<u8>::empty() + p).push(0u8) == p.push(0u8),
        (Seq::<u8>::empty() + p).len() == p.len(),
        (Seq::<u8>::empty() + p).push(0u8).last() == 0u8,
{
    assert(Seq::<u8>::empty() + p =~= p);
}

} // verus!
