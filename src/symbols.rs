//! The list of ticker symbols given as one comma-separated argument.
use vstd::prelude::*;

verus! {

/// The fields of `s` between commas, left to right: an empty text has one
/// empty field, and a comma at either end yields an empty field there.
pub open spec fn comma_fields(s: Seq<char>) -> Seq<Seq<char>>
    decreases s.len(),
{
    if s.len() == 0 {
        seq![Seq::<char>::empty()]
    } else {
        let init = comma_fields(s.drop_last());
        if s.last() == ',' {
            init.push(Seq::<char>::empty())
        } else {
            init.update(init.len() - 1, init.last().push(s.last()))
        }
    }
}

/// The views of a list of strings.
pub open spec fn string_views(v: Seq<String>) -> Seq<Seq<char>> {
    v.map_values(|x: String| x@)
}

proof fn lemma_comma_fields_nonempty(s: Seq<char>)
    ensures
        comma_fields(s).len() >= 1,
    decreases s.len(),
{
    if s.len() > 0 {
        lemma_comma_fields_nonempty(s.drop_last());
    }
}

/// Splits a comma-separated symbol list into its symbols, in the order given.
/// Nothing is trimmed and empty fields are kept.
pub fn split_symbols(list: &str) -> (symbols: Vec<String>)
    ensures
        string_views(symbols@) == comma_fields(list@),
{
    let n = list.unicode_len();
    let mut symbols: Vec<String> = Vec::new();
    let mut start: usize = 0;
    let mut i: usize = 0;
    proof {
        assert(list@.subrange(0, 0) =~= Seq::<char>::empty());
        assert(string_views(symbols@).push(list@.subrange(0, 0)) =~= comma_fields(
            list@.subrange(0, 0),
        ));
    }
    while i < n
        invariant
            n == list@.len(),
            start <= i <= n,
            string_views(symbols@).push(list@.subrange(start as int, i as int)) == comma_fields(
                list@.subrange(0, i as int),
            ),
        decreases n - i,
    {
        let c = list.get_char(i);
        let ghost prefix = list@.subrange(0, i as int + 1);
        proof {
            assert(prefix.drop_last() =~= list@.subrange(0, i as int));
            assert(prefix.last() == c);
            lemma_comma_fields_nonempty(list@.subrange(0, i as int));
        }
        if c == ',' {
            let ghost prev = symbols@;
            let ghost field_start = start;
            let field = list.substring_char(start, i).to_owned();
            symbols.push(field);
            start = i + 1;
            proof {
                assert(string_views(symbols@) =~= string_views(prev).push(
                    list@.subrange(field_start as int, i as int),
                ));
                assert(list@.subrange(start as int, i as int + 1) =~= Seq::<char>::empty());
            }
        } else {
            proof {
                assert(list@.subrange(start as int, i as int + 1) =~= list@.subrange(
                    start as int,
                    i as int,
                ).push(c));
            }
        }
        i += 1;
    }
    let last = list.substring_char(start, n).to_owned();
    symbols.push(last);
    proof {
        assert(list@.subrange(0, n as int) =~= list@);
    }
    symbols
}

} // verus!
