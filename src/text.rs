use vstd::prelude::*;

verus! {

/// The fields of `s` between occurrences of `sep`, as `str::split` yields them:
/// always at least one, and one more than the number of separators.
pub open spec fn split_fields(s: Seq<char>, sep: char) -> Seq<Seq<char>>
    decreases s.len(),
{
    if s.len() == 0 {
        seq![Seq::empty()]
    } else {
        let pre = split_fields(s.drop_last(), sep);
        if s.last() == sep {
            pre.push(Seq::empty())
        } else {
            pre.update(pre.len() - 1, pre.last().push(s.last()))
        }
    }
}

/// Each field preceded by the separator, all run together.
pub open spec fn prefixed_fields(fields: Seq<Seq<char>>, sep: char) -> Seq<char>
    decreases fields.len(),
{
    if fields.len() == 0 {
        Seq::empty()
    } else {
        prefixed_fields(fields.drop_last(), sep).push(sep) + fields.last()
    }
}

pub proof fn lemma_split_nonempty(s: Seq<char>, sep: char)
    ensures
        split_fields(s, sep).len() >= 1,
    decreases s.len(),
{
    if s.len() > 0 {
        lemma_split_nonempty(s.drop_last(), sep);
    }
}

/// Text without a separator extends the last field.
pub proof fn lemma_split_append_plain(x: Seq<char>, y: Seq<char>, sep: char)
    requires
        !y.contains(sep),
    ensures
        split_fields(x + y, sep) == split_fields(x, sep).update(
            split_fields(x, sep).len() - 1,
            split_fields(x, sep).last() + y,
        ),
    decreases y.len(),
{
    lemma_split_nonempty(x, sep);
    let sx = split_fields(x, sep);
    if y.len() == 0 {
        assert(x + y =~= x);
        assert(sx.last() + y =~= sx.last());
        assert(sx.update(sx.len() - 1, sx.last()) =~= sx);
    } else {
        let y0 = y.drop_last();
        assert(!y0.contains(sep)) by {
            if y0.contains(sep) {
                let k = choose|k: int| 0 <= k < y0.len() && y0[k] == sep;
                assert(y[k] == sep);
            }
        }
        lemma_split_append_plain(x, y0, sep);
        assert(y.last() != sep) by {
            assert(y[y.len() - 1] == y.last());
        }
        assert((x + y).drop_last() =~= x + y0);
        assert((x + y).last() == y.last());
        assert((sx.last() + y0).push(y.last()) =~= sx.last() + y);
        assert(split_fields(x + y, sep) =~= sx.update(sx.len() - 1, sx.last() + y));
    }
}

/// Splitting a leading field followed by separated fields, none of which holds
/// the separator, gives back those fields.
pub proof fn lemma_split_prefixed(first: Seq<char>, fields: Seq<Seq<char>>, sep: char)
    requires
        !first.contains(sep),
        forall|i: int| 0 <= i < fields.len() ==> !(#[trigger] fields[i]).contains(sep),
    ensures
        split_fields(first + prefixed_fields(fields, sep), sep) == seq![first] + fields,
    decreases fields.len(),
{
    if fields.len() == 0 {
        lemma_split_append_plain(Seq::empty(), first, sep);
        assert(Seq::<char>::empty() + first =~= first);
        assert(first + prefixed_fields(fields, sep) =~= first);
        assert(seq![first] + fields =~= seq![first]);
        assert(split_fields(first, sep) =~= seq![first]);
    } else {
        let rest = fields.drop_last();
        let last = fields.last();
        assert forall|i: int| 0 <= i < rest.len() implies !(#[trigger] rest[i]).contains(sep) by {
            assert(rest[i] == fields[i]);
        }
        lemma_split_prefixed(first, rest, sep);
        let x = first + prefixed_fields(rest, sep);
        let xs = x.push(sep);
        assert(xs.drop_last() =~= x);
        assert(split_fields(xs, sep) == split_fields(x, sep).push(Seq::empty()));
        assert(!last.contains(sep)) by {
            assert(last == fields[fields.len() - 1]);
        }
        lemma_split_append_plain(xs, last, sep);
        assert(first + prefixed_fields(fields, sep) =~= xs + last);
        assert(Seq::<char>::empty() + last =~= last);
        assert(split_fields(xs + last, sep) =~= (seq![first] + rest).push(last));
        assert((seq![first] + rest).push(last) =~= seq![first] + fields);
    }
}

/// Relies on String::push: it appends one character.
#[verifier::external_body]
pub(crate) fn push_char(s: &mut String, c: char)
    ensures
        final(s)@ == old(s)@.push(c),
{
    s.push(c)
}

/// The fields of `s` between occurrences of `sep`.
pub fn split_text(s: &str, sep: char) -> (r: Vec<String>)
    ensures
        r@.map_values(|f: String| f@) == split_fields(s@, sep),
{
    let n = s.unicode_len();
    let mut done: Vec<String> = Vec::new();
    let mut cur = String::new();
    let mut i: usize = 0;
    while i < n
        invariant
            n == s@.len(),
            i <= n,
            done@.map_values(|f: String| f@).push(cur@) == split_fields(s@.take(i as int), sep),
        decreases n - i,
    {
        let c = s.get_char(i);
        proof {
            lemma_split_nonempty(s@.take(i as int), sep);
            assert(s@.take(i as int + 1).drop_last() =~= s@.take(i as int));
        }
        if c == sep {
            let ghost before = done@;
            done.push(cur);
            cur = String::new();
            proof {
                assert(done@.map_values(|f: String| f@) =~= before.map_values(|f: String| f@).push(
                    done@.last()@,
                ));
                assert(cur@ =~= Seq::<char>::empty());
            }
        } else {
            push_char(&mut cur, c);
            proof {
                assert(done@.map_values(|f: String| f@).push(cur@) =~= split_fields(
                    s@.take(i as int + 1),
                    sep,
                ));
            }
        }
        i = i + 1;
    }
    assert(s@.take(n as int) =~= s@);
    let ghost before = done@;
    done.push(cur);
    assert(done@.map_values(|f: String| f@) =~= before.map_values(|f: String| f@).push(
        done@.last()@,
    ));
    done
}

} // verus!
