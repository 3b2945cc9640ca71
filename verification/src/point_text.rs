use vstd::prelude::*;

verus! {

/// The byte that separates coordinate fields in a starting-point text.
pub const FIELD_SEPARATOR: u8 = 44;

/// Bytes trimmed from the ends of a coordinate field: space, tab,
/// line feed, carriage return.
pub open spec fn is_blank(b: u8) -> bool {
    b == 32 || b == 9 || b == 10 || b == 13
}

/// The comma-separated fields of a byte string, in order.  A string
/// without a separator is a single field; every separator opens a new
/// (possibly empty) field, so the number of fields is always one more
/// than the number of separators.
pub open spec fn comma_fields(s: Seq<u8>) -> Seq<Seq<u8>>
    decreases s.len(),
{
    if s.len() == 0 {
        seq![Seq::<u8>::empty()]
    } else if s.last() == FIELD_SEPARATOR {
        comma_fields(s.drop_last()).push(Seq::<u8>::empty())
    } else {
        let prior = comma_fields(s.drop_last());
        prior.update(prior.len() - 1, prior.last().push(s.last()))
    }
}

/// A field with its leading blanks removed.
pub open spec fn trim_front(s: Seq<u8>) -> Seq<u8>
    decreases s.len(),
{
    if s.len() > 0 && is_blank(s.first()) {
        trim_front(s.drop_first())
    } else {
        s
    }
}

/// A field with its trailing blanks removed.
pub open spec fn trim_back(s: Seq<u8>) -> Seq<u8>
    decreases s.len(),
{
    if s.len() > 0 && is_blank(s.last()) {
        trim_back(s.drop_last())
    } else {
        s
    }
}

/// A field with the blanks at both ends removed.
pub open spec fn trimmed(s: Seq<u8>) -> Seq<u8> {
    trim_back(trim_front(s))
}

/// The byte strings a vector of fields holds.
pub open spec fn views_of(fields: Seq<Vec<u8>>) -> Seq<Seq<u8>> {
    fields.map_values(|f: Vec<u8>| f@)
}

/// Every field of a sequence, trimmed.
pub open spec fn trimmed_fields(fields: Seq<Seq<u8>>) -> Seq<Seq<u8>> {
    fields.map_values(|f: Seq<u8>| trimmed(f))
}

/// Cuts a byte string at every separator, keeping empty fields.
pub fn split_fields(text: &Vec<u8>) -> (fields: Vec<Vec<u8>>)
    ensures
        views_of(fields@) == comma_fields(text@),
{
    let mut fields: Vec<Vec<u8>> = Vec::new();
    let mut current: Vec<u8> = Vec::new();
    let mut i: usize = 0;
    proof {
        assert(views_of(fields@).push(current@) =~= comma_fields(text@.take(0)));
    }
    while i < text.len()
        invariant
            i <= text@.len(),
            views_of(fields@).push(current@) == comma_fields(text@.take(i as int)),
        decreases text@.len() - i,
    {
        let b = text[i];
        proof {
            assert(text@.take(i + 1).drop_last() =~= text@.take(i as int));
            assert(text@.take(i + 1).last() == text@[i as int]);
        }
        let ghost prior = comma_fields(text@.take(i as int));
        if b == FIELD_SEPARATOR {
            fields.push(current);
            current = Vec::new();
            proof {
                assert(views_of(fields@).push(current@) =~= prior.push(Seq::<u8>::empty()));
            }
        } else {
            current.push(b);
            proof {
                assert(views_of(fields@).push(current@) =~= prior.update(
                    prior.len() - 1,
                    prior.last().push(b),
                ));
            }
        }
        i = i + 1;
    }
    fields.push(current);
    proof {
        assert(text@.take(text@.len() as int) =~= text@);
        assert(views_of(fields@) =~= comma_fields(text@));
    }
    fields
}

/// Removes the blanks at both ends of a field.
pub fn trim_blanks(field: &Vec<u8>) -> (r: Vec<u8>)
    ensures
        r@ == trimmed(field@),
{
    let mut lo: usize = 0;
    proof {
        assert(field@.skip(0) =~= field@);
    }
    while lo < field.len() && (field[lo] == 32 || field[lo] == 9 || field[lo] == 10 || field[lo]
        == 13)
        invariant
            lo <= field@.len(),
            trim_front(field@) == trim_front(field@.skip(lo as int)),
        decreases field@.len() - lo,
    {
        proof {
            assert(field@.skip(lo as int).first() == field@[lo as int]);
            assert(field@.skip(lo as int).drop_first() =~= field@.skip(lo + 1));
        }
        lo = lo + 1;
    }
    proof {
        if lo < field@.len() {
            assert(field@.skip(lo as int).first() == field@[lo as int]);
        }
        assert(trim_front(field@) == field@.skip(lo as int));
    }
    let mut hi: usize = field.len();
    proof {
        assert(field@.skip(lo as int) =~= field@.subrange(lo as int, hi as int));
    }
    while hi > lo && (field[hi - 1] == 32 || field[hi - 1] == 9 || field[hi - 1] == 10 || field[hi
        - 1] == 13)
        invariant
            lo <= hi <= field@.len(),
            trimmed(field@) == trim_back(field@.subrange(lo as int, hi as int)),
        decreases hi,
    {
        proof {
            assert(field@.subrange(lo as int, hi as int).last() == field@[hi - 1]);
            assert(field@.subrange(lo as int, hi as int).drop_last() =~= field@.subrange(
                lo as int,
                hi - 1,
            ));
        }
        hi = hi - 1;
    }
    proof {
        if hi > lo {
            assert(field@.subrange(lo as int, hi as int).last() == field@[hi - 1]);
        }
        assert(trimmed(field@) == field@.subrange(lo as int, hi as int));
    }
    let mut r: Vec<u8> = Vec::new();
    let mut j: usize = lo;
    proof {
        assert(r@ =~= field@.subrange(lo as int, lo as int));
    }
    while j < hi
        invariant
            lo <= j <= hi <= field@.len(),
            r@ == field@.subrange(lo as int, j as int),
        decreases hi - j,
    {
        r.push(field[j]);
        proof {
            assert(field@.subrange(lo as int, j as int).push(field@[j as int]) =~= field@.subrange(
                lo as int,
                j + 1,
            ));
        }
        j = j + 1;
    }
    r
}

/// The compute part of reading a starting point from text: the text is
/// cut at commas, and it is acceptable only when the number of fields
/// equals the expected dimension.  Each field comes back trimmed of
/// blanks, ready for numeric conversion by the caller; a wrong field
/// count yields nothing.
pub fn split_point_fields(text: &Vec<u8>, expected: usize) -> (r: Option<Vec<Vec<u8>>>)
    ensures
        r is Some <==> comma_fields(text@).len() == expected,
        r matches Some(fields) ==> views_of(fields@) == trimmed_fields(comma_fields(text@)),
{
    let raw = split_fields(text);
    if raw.len() != expected {
        return None;
    }
    let mut out: Vec<Vec<u8>> = Vec::new();
    let mut k: usize = 0;
    while k < raw.len()
        invariant
            k <= raw@.len(),
            views_of(raw@) == comma_fields(text@),
            out@.len() == k,
            forall|j: int| 0 <= j < k ==> (#[trigger] out@[j])@ == trimmed(views_of(raw@)[j]),
        decreases raw@.len() - k,
    {
        let t = trim_blanks(&raw[k]);
        out.push(t);
        k = k + 1;
    }
    proof {
        assert(views_of(out@) =~= trimmed_fields(comma_fields(text@)));
    }
    Some(out)
}

} // verus!
