//! Variable-length UTF-8 string arrays and their builders.
//!
//! A [`StringArray`] keeps every payload concatenated in one shared byte
//! buffer, delimited by an offsets table with one more entry than the array
//! has elements: element `i` occupies the byte range
//! `data[offsets[i]..offsets[i + 1]]`. A null element occupies an empty
//! range, so the offsets table stays non-decreasing, starts at zero and ends
//! at the buffer's byte length. Borrowed elements are string slices into the
//! shared buffer — no per-element allocation.

use super::iterator::ArrayIterator;
use super::{Array, ArrayBuilder};
use crate::bitmap::{bit_seq, Bitmap};
use vstd::prelude::*;
use vstd::slice::slice_subrange;
use vstd::string::StringSliceAdditionalSpecFns;
use vstd::utf8::{decode_utf8, encode_utf8_decode_utf8, encode_utf8_valid_utf8, valid_utf8};

verus! {

/// The byte range of element `i` inside the shared buffer.
spec fn sub_bytes(data: Seq<u8>, offsets: Seq<usize>, i: int) -> Seq<u8> {
    data.subrange(offsets[i] as int, offsets[i + 1] as int)
}

/// Well-formedness of a string array's three parts: the offsets table
/// delimits the buffer, every present element's bytes are valid UTF-8, and
/// every absent element's range is empty.
spec fn wf_parts(data: Seq<u8>, offsets: Seq<usize>, bits: Seq<bool>) -> bool {
    &&& offsets.len() == bits.len() + 1
    &&& offsets[0] == 0
    &&& (forall|i: int, j: int|
        #![trigger offsets[i], offsets[j]]
        0 <= i <= j < offsets.len() ==> offsets[i] <= offsets[j])
    &&& offsets[bits.len() as int] == data.len()
    &&& (forall|i: int|
        #![trigger bits[i]]
        0 <= i < bits.len() && bits[i] ==> valid_utf8(sub_bytes(data, offsets, i)))
    &&& (forall|i: int|
        #![trigger bits[i]]
        0 <= i < bits.len() && !bits[i] ==> offsets[i + 1] == offsets[i])
}

/// The logical contents: the decoded string where the bit is set, `None`
/// where it is not.
spec fn elems_of(data: Seq<u8>, offsets: Seq<usize>, bits: Seq<bool>) -> Seq<
    Option<Seq<char>>,
> {
    Seq::new(
        bits.len(),
        |i: int|
            if bits[i] {
                Some(decode_utf8(sub_bytes(data, offsets, i)))
            } else {
                None
            },
    )
}

/// Relies on std's `str::from_utf8`: on valid UTF-8 bytes it returns `Ok`
/// with the string slice whose byte encoding is exactly the input.
#[verifier::external_body]
fn bytes_to_str<'a>(v: &'a [u8]) -> (r: &'a str)
    requires
        valid_utf8(v@),
    ensures
        r.spec_bytes() == v@,
{
    std::str::from_utf8(v).unwrap()
}

/// An [`Array`] of UTF-8 strings over a shared byte buffer, an offsets
/// table and a null bitmap.
pub struct StringArray {
    data: Vec<u8>,
    offsets: Vec<usize>,
    bitmap: Bitmap,
}

impl StringArray {
    #[verifier::type_invariant]
    closed spec fn wf_array(self) -> bool {
        wf_parts(self.data@, self.offsets@, bit_seq(self.bitmap))
    }

    /// The offsets table at the specification level.
    pub closed spec fn spec_offsets(&self) -> Seq<usize> {
        self.offsets@
    }

    /// The shared byte buffer at the specification level.
    pub closed spec fn spec_data(&self) -> Seq<u8> {
        self.data@
    }

    /// The offsets table delimiting the byte buffer; it has one more entry
    /// than the array has elements.
    pub fn offsets(&self) -> (r: &Vec<usize>)
        ensures
            r@ == self.spec_offsets(),
    {
        &self.offsets
    }

    /// The offsets table is non-decreasing, starts at zero, has one more
    /// entry than the array has elements, and ends at the byte length of
    /// the shared buffer. Nulls occupy empty ranges.
    pub fn offsets_invariant(&self)
        ensures
            self.spec_offsets().len() == self.view_elems().len() + 1,
            self.spec_offsets()[0] == 0,
            forall|i: int, j: int|
                #![trigger self.spec_offsets()[i], self.spec_offsets()[j]]
                0 <= i <= j < self.spec_offsets().len() ==> self.spec_offsets()[i]
                    <= self.spec_offsets()[j],
            self.spec_offsets()[self.view_elems().len() as int] == self.spec_data().len(),
            forall|i: int|
                #![trigger self.view_elems()[i]]
                0 <= i < self.view_elems().len() && self.view_elems()[i] is None
                    ==> self.spec_offsets()[i + 1] == self.spec_offsets()[i],
    {
        proof {
            use_type_invariant(self);
        }
    }
}

impl Array for StringArray {
    type OwnedItem = String;

    /// A borrowed element is a string slice into the shared buffer.
    type RefItem<'a> = &'a str;

    type Builder = StringArrayBuilder;

    closed spec fn view_elems(&self) -> Seq<Option<Seq<char>>> {
        elems_of(self.data@, self.offsets@, bit_seq(self.bitmap))
    }

    fn get<'a>(&'a self, idx: usize) -> (r: Option<&'a str>) {
        proof {
            use_type_invariant(self);
        }
        let n = self.offsets.len();
        if self.bitmap.get(idx) {
            let start = self.offsets[idx];
            let end = self.offsets[idx + 1];
            proof {
                assert(self.offsets@[idx as int] <= self.offsets@[idx + 1]);
                assert(self.offsets@[idx + 1] <= self.offsets@[n - 1]);
            }
            let bytes = slice_subrange(self.data.as_slice(), start, end);
            let s = bytes_to_str(bytes);
            proof {
                encode_utf8_decode_utf8(s@);
            }
            Some(s)
        } else {
            None
        }
    }

    fn len(&self) -> (r: usize) {
        self.bitmap.len()
    }

    fn is_empty(&self) -> (r: bool) {
        self.bitmap.len() == 0
    }

    fn iter<'a>(&'a self) -> (r: ArrayIterator<'a, Self>) {
        ArrayIterator::new(self)
    }
}

/// The builder for [`StringArray`].
pub struct StringArrayBuilder {
    data: Vec<u8>,
    offsets: Vec<usize>,
    bitmap: Bitmap,
}

impl ArrayBuilder for StringArrayBuilder {
    type Array = StringArray;

    closed spec fn view_elems(&self) -> Seq<Option<Seq<char>>> {
        elems_of(self.data@, self.offsets@, bit_seq(self.bitmap))
    }

    closed spec fn wf(&self) -> bool {
        wf_parts(self.data@, self.offsets@, bit_seq(self.bitmap))
    }

    closed spec fn may_push(&self) -> bool {
        bit_seq(self.bitmap).len() < usize::MAX / 64
    }

    fn with_capacity(capacity: usize) -> (r: Self) {
        let hint = if capacity <= usize::MAX / 64 {
            capacity
        } else {
            usize::MAX / 64
        };
        let cap1 = if capacity < usize::MAX {
            capacity + 1
        } else {
            capacity
        };
        let mut offsets: Vec<usize> = Vec::with_capacity(cap1);
        offsets.push(0);
        let r = StringArrayBuilder {
            data: Vec::with_capacity(capacity),
            offsets,
            bitmap: Bitmap::with_capacity(hint),
        };
        proof {
            assert(r.view_elems() =~= Seq::<Option<Seq<char>>>::empty());
        }
        r
    }

    fn push(&mut self, value: Option<&str>) {
        match value {
            Some(s) => {
                let bytes = s.as_bytes();
                self.data.extend_from_slice(bytes);
                proof {
                    assert(self.data@ =~= old(self).data@ + s.spec_bytes());
                }
                self.offsets.push(self.data.len());
                self.bitmap.push(true);
                proof {
                    encode_utf8_valid_utf8(s@);
                    encode_utf8_decode_utf8(s@);
                    lemma_push_parts(
                        old(self).data@,
                        old(self).offsets@,
                        bit_seq(old(self).bitmap),
                        s.spec_bytes(),
                        true,
                    );
                    assert(self.view_elems() =~= old(self).view_elems().push(
                        value.deep_view(),
                    ));
                }
            },
            None => {
                self.offsets.push(self.data.len());
                self.bitmap.push(false);
                proof {
                    assert(self.data@ =~= old(self).data@ + Seq::<u8>::empty());
                    lemma_push_parts(
                        old(self).data@,
                        old(self).offsets@,
                        bit_seq(old(self).bitmap),
                        Seq::<u8>::empty(),
                        false,
                    );
                    assert(self.view_elems() =~= old(self).view_elems().push(
                        value.deep_view(),
                    ));
                }
            },
        }
    }

    fn finish(self) -> (r: StringArray) {
        let r = StringArray { data: self.data, offsets: self.offsets, bitmap: self.bitmap };
        proof {
            assert(r.view_elems() =~= self.view_elems());
        }
        r
    }
}

/// Appending one element's bytes, its end offset and its presence bit
/// preserves well-formedness and extends the logical contents by one
/// element, leaving every earlier byte range untouched.
proof fn lemma_push_parts(
    data: Seq<u8>,
    offsets: Seq<usize>,
    bits: Seq<bool>,
    payload: Seq<u8>,
    bit: bool,
)
    requires
        wf_parts(data, offsets, bits),
        bit ==> valid_utf8(payload),
        !bit ==> payload == Seq::<u8>::empty(),
        data.len() + payload.len() <= usize::MAX,
    ensures
        wf_parts(
            data + payload,
            offsets.push((data.len() + payload.len()) as usize),
            bits.push(bit),
        ),
        elems_of(
            data + payload,
            offsets.push((data.len() + payload.len()) as usize),
            bits.push(bit),
        ) =~= elems_of(data, offsets, bits).push(
            if bit {
                Some(decode_utf8(payload))
            } else {
                None
            },
        ),
{
    let nd = data + payload;
    let no = offsets.push((data.len() + payload.len()) as usize);
    let nb = bits.push(bit);
    assert forall|i: int, j: int|
        #![trigger no[i], no[j]]
        0 <= i <= j < no.len() implies no[i] <= no[j] by {
        if j < offsets.len() {
            assert(offsets[i] <= offsets[j]);
        } else if i < offsets.len() {
            assert(offsets[i] <= offsets[offsets.len() - 1]);
        }
    }
    assert forall|i: int| #![trigger nb[i]] 0 <= i < nb.len() && nb[i] implies valid_utf8(
        sub_bytes(nd, no, i),
    ) by {
        if i < bits.len() {
            assert(offsets[i] <= offsets[i + 1] <= offsets[offsets.len() - 1]);
            assert(sub_bytes(nd, no, i) =~= sub_bytes(data, offsets, i));
        } else {
            assert(sub_bytes(nd, no, i) =~= payload);
        }
    }
    assert forall|i: int| #![trigger nb[i]] 0 <= i < nb.len() && !nb[i] implies no[i + 1]
        == no[i] by {
        if i < bits.len() {
            assert(offsets[i + 1] == offsets[i]);
        }
    }
    assert forall|i: int| 0 <= i < nb.len() implies #[trigger] elems_of(nd, no, nb)[i]
        == elems_of(data, offsets, bits).push(
        if bit {
            Some(decode_utf8(payload))
        } else {
            None
        },
    )[i] by {
        if i < bits.len() {
            assert(offsets[i] <= offsets[i + 1] <= offsets[offsets.len() - 1]);
            assert(sub_bytes(nd, no, i) =~= sub_bytes(data, offsets, i));
        } else {
            if bit {
                assert(sub_bytes(nd, no, i) =~= payload);
            }
        }
    }
}

} // verus!
