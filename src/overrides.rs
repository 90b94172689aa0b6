use vstd::prelude::*;

verus! {

/// Whether every character is an ASCII decimal digit.
pub open spec fn all_digits(s: Seq<char>) -> bool {
    forall|i: int| 0 <= i < s.len() ==> '0' <= #[trigger] s[i] <= '9'
}

/// The number that a string of decimal digits spells.
pub open spec fn digits_value(s: Seq<char>) -> int
    decreases s.len(),
{
    if s.len() == 0 {
        0
    } else {
        digits_value(s.drop_last()) * 10 + (s.last() as int - '0' as int)
    }
}

/// The byte count that a size value spells: decimal digits, optionally
/// followed by `K` or `k` for kibibytes. `None` for anything else.
pub open spec fn size_value(s: Seq<char>) -> Option<int> {
    if s.len() > 0 && (s.last() == 'K' || s.last() == 'k') {
        if s.len() > 1 && all_digits(s.drop_last()) {
            Some(digits_value(s.drop_last()) * 1024)
        } else {
            None
        }
    } else if s.len() > 0 && all_digits(s) {
        Some(digits_value(s))
    } else {
        None
    }
}

/// The size value as a 64-bit count, where it spells one that fits.
pub open spec fn size_spec(s: Seq<char>) -> Option<u64> {
    match size_value(s) {
        Some(v) => if v <= u64::MAX {
            Some(v as u64)
        } else {
            None
        },
        None => None,
    }
}

proof fn lemma_digits_nonneg(s: Seq<char>)
    requires
        all_digits(s),
    ensures
        digits_value(s) >= 0,
    decreases s.len(),
{
    if s.len() > 0 {
        assert(all_digits(s.drop_last()));
        lemma_digits_nonneg(s.drop_last());
    }
}

proof fn lemma_digits_grow(s: Seq<char>, i: int, n: int)
    requires
        0 <= i <= n <= s.len(),
        all_digits(s),
    ensures
        digits_value(s.subrange(0, n)) >= digits_value(s.subrange(0, i)),
    decreases n - i,
{
    if i < n {
        lemma_digits_grow(s, i, n - 1);
        assert(s.subrange(0, n).drop_last() =~= s.subrange(0, n - 1));
        assert(all_digits(s.subrange(0, n - 1)));
        lemma_digits_nonneg(s.subrange(0, n - 1));
        assert(s.subrange(0, n).last() == s[n - 1]);
    }
}

/// The value of the decimal digits in `s[0..n]`, where they all are digits
/// and their value fits in 64 bits.
fn digits_prefix(s: &str, n: usize) -> (r: Option<u64>)
    requires
        n <= s@.len(),
    ensures
        r == (if all_digits(s@.subrange(0, n as int)) && digits_value(s@.subrange(0, n as int))
            <= u64::MAX {
            Some(digits_value(s@.subrange(0, n as int)) as u64)
        } else {
            None
        }),
{
    let mut acc: u64 = 0;
    let mut i: usize = 0;
    while i < n
        invariant
            0 <= i <= n <= s@.len(),
            all_digits(s@.subrange(0, i as int)),
            acc == digits_value(s@.subrange(0, i as int)),
        decreases n - i,
    {
        let c = s.get_char(i);
        assert(s@.subrange(0, i + 1).drop_last() =~= s@.subrange(0, i as int));
        if c < '0' || c > '9' {
            assert(!all_digits(s@.subrange(0, n as int))) by {
                assert(s@.subrange(0, n as int)[i as int] == c);
            }
            return None;
        }
        let d = (c as u32 - '0' as u32) as u64;
        let next = match acc.checked_mul(10) {
            Some(m) => m.checked_add(d),
            None => None,
        };
        match next {
            Some(v) => {
                acc = v;
            },
            None => {
                proof {
                    if all_digits(s@.subrange(0, n as int)) {
                        lemma_digits_grow(s@.subrange(0, n as int), i + 1, n as int);
                        assert(s@.subrange(0, n as int).subrange(0, i + 1) =~= s@.subrange(
                            0,
                            i + 1,
                        ));
                        assert(s@.subrange(0, n as int).subrange(0, n as int) =~= s@.subrange(
                            0,
                            n as int,
                        ));
                    }
                }
                return None;
            },
        }
        assert(all_digits(s@.subrange(0, i + 1)));
        i = i + 1;
    }
    Some(acc)
}

/// Parses a size value: decimal digits, optionally followed by `K` or `k`
/// for kibibytes. `None` where the text is not such a value or the size does
/// not fit in 64 bits.
pub fn parse_size(s: &str) -> (r: Option<u64>)
    ensures
        r == size_spec(s@),
{
    let len = s.unicode_len();
    if len == 0 {
        return None;
    }
    let last = s.get_char(len - 1);
    if last == 'K' || last == 'k' {
        if len == 1 {
            return None;
        }
        assert(s@.subrange(0, len - 1) =~= s@.drop_last());
        let r = match digits_prefix(s, len - 1) {
            Some(v) => v.checked_mul(1024),
            None => None,
        };
        proof {
            if all_digits(s@.drop_last()) {
                lemma_digits_nonneg(s@.drop_last());
            }
        }
        r
    } else {
        assert(s@.subrange(0, len as int) =~= s@);
        digits_prefix(s, len)
    }
}

/// Name of the variable that overrides the stack size.
pub open spec fn stack_variable() -> Seq<char> {
    "BOARD_STACK"@
}

/// Name of the variable that overrides the heap size.
pub open spec fn heap_variable() -> Seq<char> {
    "BOARD_HEAP"@
}

/// The stack and heap sizes after the first `n` variables, starting from
/// the defaults. A later variable overrides an earlier one, names other than
/// the two size variables are ignored, and a size variable whose value is
/// not a size makes the whole `None`.
pub open spec fn sizes_after(
    vars: Seq<(String, String)>,
    n: int,
    stack: u64,
    heap: u64,
) -> Option<(u64, u64)>
    decreases n,
{
    if n <= 0 {
        Some((stack, heap))
    } else {
        match sizes_after(vars, n - 1, stack, heap) {
            None => None,
            Some((st, hp)) => {
                let (name, value) = vars[n - 1];
                if name@ == stack_variable() {
                    match size_spec(value@) {
                        Some(v) => Some((v, hp)),
                        None => None,
                    }
                } else if name@ == heap_variable() {
                    match size_spec(value@) {
                        Some(v) => Some((st, v)),
                        None => None,
                    }
                } else {
                    Some((st, hp))
                }
            },
        }
    }
}

/// The stack and heap sizes that a build with these variables lays out,
/// starting from the board's defaults; `None` where a size variable holds a
/// value that is not a size, which fails the build.
pub fn sizes_with_overrides(stack: u64, heap: u64, vars: &Vec<(String, String)>) -> (r: Option<
    (u64, u64),
>)
    ensures
        r == sizes_after(vars@, vars@.len() as int, stack, heap),
{
    let stack_name = "BOARD_STACK".to_owned();
    let heap_name = "BOARD_HEAP".to_owned();
    let mut st = stack;
    let mut hp = heap;
    let mut i: usize = 0;
    while i < vars.len()
        invariant
            0 <= i <= vars@.len(),
            stack_name@ == stack_variable(),
            heap_name@ == heap_variable(),
            sizes_after(vars@, i as int, stack, heap) == Some((st, hp)),
        decreases vars@.len() - i,
    {
        let (name, value) = &vars[i];
        if *name == stack_name {
            match parse_size(value.as_str()) {
                Some(v) => {
                    st = v;
                },
                None => {
                    proof {
                        lemma_sizes_stay_none(vars@, i + 1, vars@.len() as int, stack, heap);
                    }
                    return None;
                },
            }
        } else if *name == heap_name {
            match parse_size(value.as_str()) {
                Some(v) => {
                    hp = v;
                },
                None => {
                    proof {
                        lemma_sizes_stay_none(vars@, i + 1, vars@.len() as int, stack, heap);
                    }
                    return None;
                },
            }
        }
        i = i + 1;
    }
    Some((st, hp))
}

proof fn lemma_sizes_stay_none(vars: Seq<(String, String)>, i: int, n: int, stack: u64, heap: u64)
    requires
        0 <= i <= n,
        sizes_after(vars, i, stack, heap) is None,
    ensures
        sizes_after(vars, n, stack, heap) is None,
    decreases n - i,
{
    if i < n {
        lemma_sizes_stay_none(vars, i, n - 1, stack, heap);
    }
}

/// A stack or heap variable whose value is not a size fails the whole
/// build, whatever the other variables hold.
pub proof fn lemma_unparsable_override_fails(
    vars: Seq<(String, String)>,
    i: int,
    stack: u64,
    heap: u64,
)
    requires
        0 <= i < vars.len(),
        vars[i].0@ == stack_variable() || vars[i].0@ == heap_variable(),
        size_spec(vars[i].1@) is None,
    ensures
        sizes_after(vars, vars.len() as int, stack, heap) is None,
{
    assert(sizes_after(vars, i + 1, stack, heap) is None);
    lemma_sizes_stay_none(vars, i + 1, vars.len() as int, stack, heap);
}

} // verus!
