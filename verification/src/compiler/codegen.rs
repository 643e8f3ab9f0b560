//! Which functions the diagnostic settings of the runtime select.
use vstd::prelude::*;

use crate::text::to_chars;
use crate::vm::{Fct, VM};

verus! {

/// The part of `pattern` before its first comma; all of it where it has
/// none.
pub open spec fn first_part(pattern: Seq<char>) -> Seq<char>
    decreases pattern.len(),
{
    if pattern.len() == 0 || pattern[0] == ',' {
        Seq::empty()
    } else {
        seq![pattern[0]] + first_part(pattern.drop_first())
    }
}

/// Whether one of the parts of `pattern`, which commas separate, is `name`.
pub open spec fn some_part_is(pattern: Seq<char>, name: Seq<char>) -> bool
    decreases pattern.len(),
{
    let part = first_part(pattern);
    part == name || (part.len() < pattern.len() && some_part_is(
        pattern.skip(part.len() as int + 1),
        name,
    ))
}

/// Whether `pattern` selects the function with the name `name`: the
/// pattern `all` selects every function, any other pattern the functions
/// whose names it lists, separated by commas.
pub open spec fn pattern_matches(pattern: Seq<char>, name: Seq<char>) -> bool {
    pattern == seq!['a', 'l', 'l'] || some_part_is(pattern, name)
}

/// Whether the characters of `pattern` from `start` up to `end` are those
/// of `name`.
fn part_is(pattern: &Vec<char>, start: usize, end: usize, name: &Vec<char>) -> (b: bool)
    requires
        start <= end <= pattern@.len(),
    ensures
        b == (pattern@.subrange(start as int, end as int) == name@),
{
    if end - start != name.len() {
        return false;
    }
    let mut i: usize = 0;
    while i < name.len()
        invariant
            start <= end <= pattern@.len(),
            end - start == name@.len(),
            i <= name@.len(),
            forall|k: int| 0 <= k < i ==> pattern@[start + k] == name@[k],
        decreases name@.len() - i,
    {
        if pattern[start + i] != name[i] {
            proof {
                assert(pattern@.subrange(start as int, end as int)[i as int] != name@[i as int]);
            }
            return false;
        }
        i += 1;
    }
    proof {
        assert(pattern@.subrange(start as int, end as int) =~= name@);
    }
    true
}

/// Whether `pattern` selects the function with the name `name`.
#[verifier::loop_isolation(false)]
pub fn pattern_match(pattern: &str, name: &str) -> (b: bool)
    ensures
        b == pattern_matches(pattern@, name@),
{
    let pat = to_chars(pattern);
    let nam = to_chars(name);

    if pat.len() == 3 && pat[0] == 'a' && pat[1] == 'l' && pat[2] == 'l' {
        proof {
            assert(pat@ =~= seq!['a', 'l', 'l']);
        }
        return true;
    }
    proof {
        assert(pat@ != seq!['a', 'l', 'l']) by {
            if pat@ == seq!['a', 'l', 'l'] {
                assert(pat@.len() == 3);
                assert(pat@[0] == 'a' && pat@[1] == 'l' && pat@[2] == 'l');
            }
        }
        assert(pat@.skip(0) =~= pat@);
    }
    let mut start: usize = 0;
    loop
        invariant
            start <= pat@.len(),
            some_part_is(pat@, nam@) == some_part_is(pat@.skip(start as int), nam@),
        decreases pat@.len() - start,
    {
        let ghost rest = pat@.skip(start as int);
        let mut end: usize = start;
        proof {
            assert(rest.skip(0) =~= rest);
            assert(rest.take(0) + first_part(rest) =~= first_part(rest));
        }
        while end < pat.len() && pat[end] != ','
            invariant
                start <= end <= pat@.len(),
                rest.take(end - start) + first_part(rest.skip(end - start)) == first_part(rest),
            decreases pat@.len() - end,
        {
            proof {
                let done = rest.take(end - start);
                let left = rest.skip(end - start);
                assert(left[0] == pat@[end as int]);
                assert(left.drop_first() =~= rest.skip(end - start + 1));
                assert(rest.take(end - start + 1) =~= done + seq![left[0]]);
                assert(rest.take(end - start + 1) + first_part(rest.skip(end - start + 1)) =~= done
                    + first_part(left));
            }
            end += 1;
        }
        proof {
            let left = rest.skip(end - start);
            if end < pat@.len() {
                assert(left[0] == pat@[end as int]);
            }
            assert(first_part(left) =~= Seq::<char>::empty());
            assert(rest.take(end - start) + first_part(left) =~= rest.take(end - start));
            assert(rest.take(end - start) =~= pat@.subrange(start as int, end as int));
            assert(first_part(rest) == pat@.subrange(start as int, end as int));
            assert(first_part(rest).len() == end - start);
        }
        if part_is(&pat, start, end, &nam) {
            return true;
        }
        if end == pat.len() {
            return false;
        }
        proof {
            assert(rest.skip(end - start + 1) =~= pat@.skip(end + 1));
        }
        start = end + 1;
    }
}

/// Whether `pattern` selects the function `fct`.
pub fn fct_pattern_match(fct: &Fct, pattern: &str) -> (b: bool)
    ensures
        b == pattern_matches(pattern@, fct.name@),
{
    pattern_match(pattern, fct.name.as_str())
}

/// Whether the settings ask for a breakpoint at the start of `fct`.
pub open spec fn debug_wanted(vm: &VM, fct: &Fct) -> bool {
    match vm.args.flag_emit_debug {
        Some(names) => pattern_matches(names@, fct.name@),
        None => false,
    }
}

/// Whether the settings ask for a breakpoint at the start of `fct`.
pub fn should_emit_debug(vm: &VM, fct: &Fct) -> (b: bool)
    ensures
        b == debug_wanted(vm, fct),
{
    match &vm.args.flag_emit_debug {
        Some(dbg_names) => fct_pattern_match(fct, dbg_names.as_str()),
        None => false,
    }
}

} // verus!
