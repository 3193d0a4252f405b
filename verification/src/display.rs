//! The text of a value, in pieces: what the value's `Display` writes, with
//! floating-point numbers and IPv6 addresses left for the caller to render.

use vstd::prelude::*;
use vstd::utf8::encode_utf8_decode_utf8;
use crate::datum::{Piece, render, render_items, byte_list_text, join_comma, ipv4_text};
use crate::either::Either;
use crate::external::{
    str_from_utf8, date_text, date_with_zone_text, date_time_text, rfc2822_text, uuid_text,
};
use crate::text::{decimal, push_decimal, push_signed_decimal, decimal_string};
use crate::value_ref::{ValueRef, ref_models, lemma_ref_models};

verus! {

/// A piece of the text of a value.
#[derive(Debug)]
pub enum Fragment {
    /// Text to write as it is.
    Text(String),
    /// A 32-bit float, by its IEEE 754 bit pattern, to write with `Display`.
    Float32(u32),
    /// A 64-bit float, by its IEEE 754 bit pattern, to write with `Display`.
    Float64(u64),
    /// An IPv6 address, to write with `Display` of `std::net::Ipv6Addr`.
    Ipv6([u8; 16]),
}

impl View for Fragment {
    type V = Piece;

    open spec fn view(&self) -> Piece {
        match self {
            Fragment::Text(s) => Piece::Text(s@),
            Fragment::Float32(v) => Piece::Float32(*v),
            Fragment::Float64(v) => Piece::Float64(*v),
            Fragment::Ipv6(a) => Piece::Ipv6(*a),
        }
    }
}

/// The pieces that a run of fragments stands for.
pub open spec fn pieces(fs: Seq<Fragment>) -> Seq<Piece> {
    fs.map_values(|f: Fragment| f@)
}

proof fn lemma_pieces_push(fs: Seq<Fragment>, f: Fragment)
    ensures
        pieces(fs.push(f)) == pieces(fs) + seq![f@],
{
    assert(pieces(fs.push(f)) =~= pieces(fs) + seq![f@]);
}

/// Pushes a text fragment.
fn push_text(out: &mut Vec<Fragment>, s: String)
    ensures
        pieces(final(out)@) == pieces(old(out)@) + seq![Piece::Text(s@)],
{
    let ghost before = out@;
    let f = Fragment::Text(s);
    out.push(f);
    proof {
        lemma_pieces_push(before, f);
    }
}

/// std's `Debug` text of a byte slice.
fn byte_list_string(b: &[u8]) -> (r: String)
    ensures
        r@ == byte_list_text(b@),
{
    let ghost parts = Seq::new(b@.len(), |i: int| decimal(b@[i] as nat));
    let mut out = String::new();
    out.append("[");
    let mut i: usize = 0;
    while i < b.len()
        invariant
            i <= b.len(),
            parts == Seq::new(b@.len(), |k: int| decimal(b@[k] as nat)),
            out@ == "["@ + join_comma(parts.take(i as int)),
        decreases b.len() - i,
    {
        let ghost prev = out@;
        if i > 0 {
            out.append(", ");
        }
        push_decimal(&mut out, b[i] as u64);
        proof {
            reveal_strlit(", ");
            assert(parts.take(i + 1).drop_last() =~= parts.take(i as int));
            if i == 0 {
                assert(join_comma(parts.take(0)) =~= Seq::empty());
                assert(out@ =~= "["@ + join_comma(parts.take(i + 1)));
            } else {
                assert(out@ =~= "["@ + join_comma(parts.take(i + 1)));
            }
        }
        i = i + 1;
    }
    out.append("]");
    proof {
        reveal_strlit("[");
        reveal_strlit("]");
        assert(parts.take(b@.len() as int) =~= parts);
        assert(out@ =~= byte_list_text(b@));
    }
    out
}

/// The dotted-decimal text of an IPv4 address.
fn ipv4_string(a: &[u8; 4]) -> (r: String)
    ensures
        r@ == ipv4_text(*a),
{
    let mut out = String::new();
    push_decimal(&mut out, a[0] as u64);
    out.append(".");
    push_decimal(&mut out, a[1] as u64);
    out.append(".");
    push_decimal(&mut out, a[2] as u64);
    out.append(".");
    push_decimal(&mut out, a[3] as u64);
    proof {
        reveal_strlit(".");
        assert(out@ =~= ipv4_text(*a));
    }
    out
}

impl<'a> ValueRef<'a> {
    /// Appends the fragments of the value's text to `out`; `alternate`
    /// selects the alternate form.
    pub fn push_fragments(&self, alternate: bool, out: &mut Vec<Fragment>)
        ensures
            pieces(final(out)@) == pieces(old(out)@) + render(self@, alternate),
        decreases self,
    {
        match self {
            ValueRef::UInt8(v) => push_text(out, decimal_string(*v as u64)),
            ValueRef::UInt16(v) => push_text(out, decimal_string(*v as u64)),
            ValueRef::UInt32(v) => push_text(out, decimal_string(*v as u64)),
            ValueRef::UInt64(v) => push_text(out, decimal_string(*v)),
            ValueRef::Int8(v) => {
                let mut s = String::new();
                push_signed_decimal(&mut s, *v as i64);
                push_text(out, s);
            },
            ValueRef::Int16(v) => {
                let mut s = String::new();
                push_signed_decimal(&mut s, *v as i64);
                push_text(out, s);
            },
            ValueRef::Int32(v) => {
                let mut s = String::new();
                push_signed_decimal(&mut s, *v as i64);
                push_text(out, s);
            },
            ValueRef::Int64(v) => {
                let mut s = String::new();
                push_signed_decimal(&mut s, *v);
                push_text(out, s);
            },
            ValueRef::String(v) => match str_from_utf8(v) {
                Ok(s) => {
                    proof {
                        encode_utf8_decode_utf8(s@);
                    }
                    push_text(out, s.to_owned());
                },
                Err(_) => push_text(out, byte_list_string(v)),
            },
            ValueRef::Float32(v) => {
                let ghost before = out@;
                let f = Fragment::Float32(*v);
                out.push(f);
                proof {
                    lemma_pieces_push(before, f);
                }
            },
            ValueRef::Float64(v) => {
                let ghost before = out@;
                let f = Fragment::Float64(*v);
                out.push(f);
                proof {
                    lemma_pieces_push(before, f);
                }
            },
            ValueRef::Date(v, tz) => {
                let secs = (*v as i64) * 86400;
                if alternate {
                    push_text(out, date_with_zone_text(secs, *tz));
                } else {
                    push_text(out, date_text(secs, *tz));
                }
            },
            ValueRef::DateTime(v, tz) => {
                if alternate {
                    push_text(out, rfc2822_text(*v as i64, *tz));
                } else {
                    push_text(out, date_time_text(*v as i64, *tz));
                }
            },
            ValueRef::Nullable(u) => match u {
                Either::Left(_) => {
                    proof {
                        reveal_strlit("NULL");
                        assert("NULL"@ =~= seq!['N', 'U', 'L', 'L']);
                    }
                    push_text(out, "NULL".to_owned());
                },
                Either::Right(inner) => inner.push_fragments(false, out),
            },
            ValueRef::Array(_, items) => {
                let ghost start = out@;
                let ghost models = ref_models(items@);
                proof {
                    lemma_ref_models(items@);
                    reveal_strlit("[");
                    reveal_strlit("]");
                    reveal_strlit(", ");
                    assert("["@ =~= seq!['[']);
                    assert("]"@ =~= seq![']']);
                    assert(", "@ =~= seq![',', ' ']);
                }
                push_text(out, "[".to_owned());
                let mut i: usize = 0;
                while i < items.len()
                    invariant
                        *self == ValueRef::Array(self->Array_0, *items),
                        i <= items.len(),
                        models == ref_models(items@),
                        models.len() == items@.len(),
                        forall|j: int| 0 <= j < items@.len() ==> #[trigger] models[j] == items@[j]@,
                        ", "@ == seq![',', ' '],
                        pieces(out@) == pieces(start) + seq![Piece::Text(seq!['['])]
                            + render_items(models.take(i as int)),
                    decreases items.len() - i,
                {
                    proof {
                        assert(decreases_to!(*self => self->Array_1));
                        assert(decreases_to!(*items => items@));
                        assert(decreases_to!(items@ => items@[i as int]));
                    }
                    let ghost prev = pieces(out@);
                    if i > 0 {
                        push_text(out, ", ".to_owned());
                    }
                    items[i].push_fragments(false, out);
                    proof {
                        assert(models.take(i + 1).drop_last() =~= models.take(i as int));
                        assert(models.take(i + 1).last() == items@[i as int]@);
                        if i == 0 {
                            assert(render_items(models.take(0)) =~= Seq::empty());
                            assert(models.take(1)[0] == items@[0]@);
                        }
                        assert(pieces(out@) =~= pieces(start) + seq![Piece::Text(seq!['['])]
                            + render_items(models.take(i + 1)));
                    }
                    i = i + 1;
                }
                push_text(out, "]".to_owned());
                proof {
                    assert(models.take(items@.len() as int) =~= models);
                    assert(pieces(out@) =~= pieces(start) + render(self@, alternate));
                }
            },
            ValueRef::Decimal(x) => {
                let mut s = String::new();
                x.push_text(&mut s);
                push_text(out, s);
            },
            ValueRef::Ipv4(a) => push_text(out, ipv4_string(a)),
            ValueRef::Ipv6(a) => {
                let ghost before = out@;
                let f = Fragment::Ipv6(*a);
                out.push(f);
                proof {
                    lemma_pieces_push(before, f);
                }
            },
            ValueRef::Uuid(a) => push_text(out, uuid_text(a)),
        }
    }

    /// The fragments of the value's text (what `{}` writes, or `{:#}` when
    /// `alternate` is set).
    pub fn display_fragments(&self, alternate: bool) -> (r: Vec<Fragment>)
        ensures
            pieces(r@) == render(self@, alternate),
    {
        let mut out: Vec<Fragment> = Vec::new();
        self.push_fragments(alternate, &mut out);
        proof {
            assert(pieces(Seq::<Fragment>::empty()) =~= Seq::empty());
            assert(render(self@, alternate) =~= Seq::<Piece>::empty() + render(self@, alternate));
        }
        out
    }
}

} // verus!
