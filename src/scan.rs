use vstd::prelude::*;

verus! {

/// Byte that ends a line of a process listing.
pub const NEWLINE: u8 = 10;

/// Byte that separates the fields of a CSV record.
pub const COMMA: u8 = 44;

/// Byte that quotes a CSV field.
pub const QUOTE: u8 = 34;

/// The tools whose output a scan for earlier backend instances can read.
#[derive(Clone, Copy, PartialEq, Eq, Structural, Debug)]
pub enum ScanFormat {
    /// One process identifier per line (`pgrep -f`).
    PidLines,
    /// `ProcessId=<pid>` records (`wmic ... /format:list`).
    KeyValue,
    /// CSV rows with the identifier in the second column (`tasklist /FO CSV`).
    Csv,
}

pub open spec fn is_digit(b: u8) -> bool {
    48 <= b <= 57
}

/// ASCII whitespace: tab, line feed, vertical tab, form feed, carriage return, space.
pub open spec fn is_space(b: u8) -> bool {
    (9 <= b <= 13) || b == 32
}

/// The bytes stripped from the ends of a field: whitespace, or double quotes.
pub open spec fn is_stripped(b: u8, quotes: bool) -> bool {
    if quotes {
        b == QUOTE
    } else {
        is_space(b)
    }
}

pub open spec fn strip_start(s: Seq<u8>, quotes: bool) -> Seq<u8>
    decreases s.len(),
{
    if s.len() > 0 && is_stripped(s[0], quotes) {
        strip_start(s.drop_first(), quotes)
    } else {
        s
    }
}

pub open spec fn strip_end(s: Seq<u8>, quotes: bool) -> Seq<u8>
    decreases s.len(),
{
    if s.len() > 0 && is_stripped(s.last(), quotes) {
        strip_end(s.drop_last(), quotes)
    } else {
        s
    }
}

/// `s` without the stripped bytes at either end.
pub open spec fn strip(s: Seq<u8>, quotes: bool) -> Seq<u8> {
    strip_end(strip_start(s, quotes), quotes)
}

/// The pieces of `s` between separators, in order; there is always one piece
/// more than there are separators.
pub open spec fn split_on(s: Seq<u8>, sep: u8) -> Seq<Seq<u8>>
    decreases s.len(),
{
    if s.len() == 0 {
        seq![Seq::<u8>::empty()]
    } else {
        let pieces = split_on(s.drop_last(), sep);
        if s.last() == sep {
            pieces.push(Seq::<u8>::empty())
        } else {
            pieces.update(pieces.len() - 1, pieces.last().push(s.last()))
        }
    }
}

pub open spec fn all_digits(s: Seq<u8>) -> bool {
    forall|i: int| 0 <= i < s.len() ==> is_digit(#[trigger] s[i])
}

/// The value of a string of decimal digits.
pub open spec fn digits_value(s: Seq<u8>) -> nat
    decreases s.len(),
{
    if s.len() == 0 {
        0
    } else {
        digits_value(s.drop_last()) * 10 + (s.last() - 48) as nat
    }
}

/// An unsigned 32-bit decimal number: an optional `+`, then one or more
/// digits, whose value fits.
pub open spec fn parse_u32(s: Seq<u8>) -> Option<u32> {
    let body = if s.len() > 0 && s[0] == 43 {
        s.drop_first()
    } else {
        s
    };
    if body.len() > 0 && all_digits(body) && digits_value(body) <= u32::MAX {
        Some(digits_value(body) as u32)
    } else {
        None
    }
}

/// The key that opens a record line of the key-value format.
pub open spec fn pid_key() -> Seq<u8> {
    seq![80u8, 114, 111, 99, 101, 115, 115, 73, 100, 61]
}

/// The process identifier that a line of a listing names, if any.
pub open spec fn pid_in_line(format: ScanFormat, line: Seq<u8>) -> Option<u32> {
    match format {
        ScanFormat::PidLines => parse_u32(strip(line, false)),
        ScanFormat::KeyValue => {
            if line.len() >= pid_key().len() && line.subrange(0, pid_key().len() as int)
                == pid_key() {
                parse_u32(strip(line.subrange(pid_key().len() as int, line.len() as int), false))
            } else {
                None
            }
        },
        ScanFormat::Csv => {
            let fields = split_on(line, COMMA);
            if fields.len() >= 2 {
                parse_u32(strip(strip(fields[1], false), true))
            } else {
                None
            }
        },
    }
}

/// The identifiers named by `lines`, in order, leaving out `own`.
pub open spec fn pids_in_lines(format: ScanFormat, lines: Seq<Seq<u8>>, own: u32) -> Seq<u32>
    decreases lines.len(),
{
    if lines.len() == 0 {
        seq![]
    } else {
        let earlier = pids_in_lines(format, lines.drop_last(), own);
        match pid_in_line(format, lines.last()) {
            Some(p) => if p != own {
                earlier.push(p)
            } else {
                earlier
            },
            None => earlier,
        }
    }
}

/// The identifiers that a listing names, other than `own`. The key-value tool
/// is trusted only when it reports success.
pub open spec fn listed_pids(format: ScanFormat, success: bool, out: Seq<u8>, own: u32) -> Seq<
    u32,
> {
    if format == ScanFormat::KeyValue && !success {
        seq![]
    } else {
        pids_in_lines(format, split_on(out, NEWLINE), own)
    }
}

/// The contents of a list of byte vectors.
pub open spec fn byte_views(v: Seq<Vec<u8>>) -> Seq<Seq<u8>> {
    v.map_values(|x: Vec<u8>| x@)
}

/// Splits `s` into the pieces between the separator bytes.
pub fn split_bytes(s: &[u8], sep: u8) -> (r: Vec<Vec<u8>>)
    ensures
        byte_views(r@) == split_on(s@, sep),
{
    let mut done: Vec<Vec<u8>> = Vec::new();
    let mut cur: Vec<u8> = Vec::new();
    let mut i: usize = 0;
    assert(s@.subrange(0, 0) =~= Seq::<u8>::empty());
    assert(byte_views(done@).push(cur@) =~= split_on(s@.subrange(0, 0), sep));
    while i < s.len()
        invariant
            i <= s.len(),
            byte_views(done@).push(cur@) == split_on(s@.subrange(0, i as int), sep),
        decreases s.len() - i,
    {
        let b = s[i];
        let ghost before = byte_views(done@);
        let ghost cur_before = cur@;
        assert(s@.subrange(0, i + 1).drop_last() =~= s@.subrange(0, i as int));
        if b == sep {
            done.push(cur);
            cur = Vec::new();
            assert(byte_views(done@) =~= before.push(cur_before));
            assert(byte_views(done@).push(cur@) =~= split_on(s@.subrange(0, i + 1), sep));
        } else {
            cur.push(b);
            assert(byte_views(done@).push(cur@) =~= before.push(cur_before).update(
                before.len() as int,
                cur_before.push(b),
            ));
        }
        i = i + 1;
    }
    assert(s@.subrange(0, s.len() as int) =~= s@);
    done.push(cur);
    assert(byte_views(done@) =~= split_on(s@, sep));
    done
}

fn stripped_byte(b: u8, quotes: bool) -> (r: bool)
    ensures
        r == is_stripped(b, quotes),
{
    if quotes {
        b == QUOTE
    } else {
        (9 <= b && b <= 13) || b == 32
    }
}

/// The bounds of `s[lo..hi]` once the stripped bytes at both ends are gone.
fn strip_range(s: &[u8], lo: usize, hi: usize, quotes: bool) -> (r: (usize, usize))
    requires
        lo <= hi <= s@.len(),
    ensures
        lo <= r.0 <= r.1 <= hi,
        s@.subrange(r.0 as int, r.1 as int) == strip(s@.subrange(lo as int, hi as int), quotes),
{
    let mut a = lo;
    while a < hi && stripped_byte(s[a], quotes)
        invariant
            lo <= a <= hi <= s@.len(),
            strip_start(s@.subrange(lo as int, hi as int), quotes) == strip_start(
                s@.subrange(a as int, hi as int),
                quotes,
            ),
        decreases hi - a,
    {
        assert(s@.subrange(a as int, hi as int).drop_first() =~= s@.subrange(a + 1, hi as int));
        a = a + 1;
    }
    assert(strip_start(s@.subrange(a as int, hi as int), quotes) == s@.subrange(
        a as int,
        hi as int,
    ));
    let mut b = hi;
    while b > a && stripped_byte(s[b - 1], quotes)
        invariant
            lo <= a <= b <= hi <= s@.len(),
            strip_end(s@.subrange(a as int, hi as int), quotes) == strip_end(
                s@.subrange(a as int, b as int),
                quotes,
            ),
        decreases b - a,
    {
        assert(s@.subrange(a as int, b as int).drop_last() =~= s@.subrange(a as int, b - 1));
        b = b - 1;
    }
    (a, b)
}

proof fn lemma_digits_prefix(s: Seq<u8>, k: int)
    requires
        0 <= k <= s.len(),
        all_digits(s),
    ensures
        digits_value(s.subrange(0, k)) <= digits_value(s),
    decreases s.len(),
{
    if k < s.len() {
        lemma_digits_prefix(s.drop_last(), k);
        assert(s.drop_last().subrange(0, k) =~= s.subrange(0, k));
    } else {
        assert(s.subrange(0, k) =~= s);
    }
}

/// Reads `s[lo..hi]` as an unsigned 32-bit decimal number.
fn parse_range(s: &[u8], lo: usize, hi: usize) -> (r: Option<u32>)
    requires
        lo <= hi <= s@.len(),
    ensures
        r == parse_u32(s@.subrange(lo as int, hi as int)),
{
    let ghost whole = s@.subrange(lo as int, hi as int);
    let mut i = lo;
    if i < hi && s[i] == 43 {
        i = i + 1;
    }
    let ghost body = s@.subrange(i as int, hi as int);
    assert(whole.len() > 0 && whole[0] == 43 ==> body =~= whole.drop_first());
    assert(!(whole.len() > 0 && whole[0] == 43) ==> body =~= whole);
    if i == hi {
        return None;
    }
    let start = i;
    let mut v: u64 = 0;
    assert(s@.subrange(start as int, start as int) =~= Seq::<u8>::empty());
    while i < hi
        invariant
            lo <= start <= i <= hi <= s@.len(),
            body == s@.subrange(start as int, hi as int),
            whole == s@.subrange(lo as int, hi as int),
            whole.len() > 0 && whole[0] == 43 ==> body == whole.drop_first(),
            !(whole.len() > 0 && whole[0] == 43) ==> body == whole,
            all_digits(s@.subrange(start as int, i as int)),
            v == digits_value(s@.subrange(start as int, i as int)),
            v <= u32::MAX,
        decreases hi - i,
    {
        let b = s[i];
        if !(48 <= b && b <= 57) {
            assert(body[i - start] == b);
            return None;
        }
        let ghost next = s@.subrange(start as int, i + 1);
        assert(next.drop_last() =~= s@.subrange(start as int, i as int));
        v = v * 10 + (b - 48) as u64;
        assert(all_digits(next));
        if v > 4294967295u64 {
            proof {
                if all_digits(body) {
                    lemma_digits_prefix(body, i + 1 - start);
                    assert(body.subrange(0, i + 1 - start) =~= next);
                }
            }
            return None;
        }
        i = i + 1;
    }
    Some(v as u32)
}

fn has_pid_key(line: &[u8]) -> (r: bool)
    ensures
        r == (line@.len() >= pid_key().len() && line@.subrange(0, pid_key().len() as int)
            == pid_key()),
{
    let key: Vec<u8> = vec![80u8, 114, 111, 99, 101, 115, 115, 73, 100, 61];
    assert(key@ =~= pid_key());
    if line.len() < key.len() {
        return false;
    }
    let mut i: usize = 0;
    while i < key.len()
        invariant
            key@ == pid_key(),
            i <= key@.len() <= line@.len(),
            line@.subrange(0, i as int) == key@.subrange(0, i as int),
        decreases key.len() - i,
    {
        if line[i] != key[i] {
            assert(line@.subrange(0, key@.len() as int)[i as int] != key@[i as int]);
            return false;
        }
        assert(line@.subrange(0, i + 1) =~= key@.subrange(0, i + 1));
        i = i + 1;
    }
    assert(key@.subrange(0, key@.len() as int) =~= key@);
    true
}

/// The process identifier that one line of a listing names, if any.
pub fn pid_of_line(format: ScanFormat, line: &[u8]) -> (r: Option<u32>)
    ensures
        r == pid_in_line(format, line@),
{
    let n = line.len();
    assert(line@.subrange(0, n as int) =~= line@);
    match format {
        ScanFormat::PidLines => {
            let (a, b) = strip_range(line, 0, n, false);
            parse_range(line, a, b)
        },
        ScanFormat::KeyValue => {
            if has_pid_key(line) {
                let (a, b) = strip_range(line, 10, n, false);
                parse_range(line, a, b)
            } else {
                None
            }
        },
        ScanFormat::Csv => {
            let fields = split_bytes(line, COMMA);
            if fields.len() >= 2 {
                let field = &fields[1];
                let m = field.len();
                assert(field@.subrange(0, m as int) =~= field@);
                let (a, b) = strip_range(field.as_slice(), 0, m, false);
                let (c, d) = strip_range(field.as_slice(), a, b, true);
                parse_range(field.as_slice(), c, d)
            } else {
                None
            }
        },
    }
}

/// The identifiers of the processes that a listing names, in the order it
/// names them, leaving out `own_pid`.
pub fn pids_in_listing(format: ScanFormat, success: bool, out: &[u8], own_pid: u32) -> (r: Vec<
    u32,
>)
    ensures
        r@ == listed_pids(format, success, out@, own_pid),
{
    let mut found: Vec<u32> = Vec::new();
    if format == ScanFormat::KeyValue && !success {
        return found;
    }
    let lines = split_bytes(out, NEWLINE);
    let ghost all = byte_views(lines@);
    let mut i: usize = 0;
    assert(all.subrange(0, 0) =~= Seq::<Seq<u8>>::empty());
    while i < lines.len()
        invariant
            i <= lines@.len(),
            all == byte_views(lines@),
            found@ == pids_in_lines(format, all.subrange(0, i as int), own_pid),
        decreases lines.len() - i,
    {
        let ghost upto = all.subrange(0, i + 1);
        assert(upto.drop_last() =~= all.subrange(0, i as int));
        assert(upto.last() == lines@[i as int]@);
        match pid_of_line(format, lines[i].as_slice()) {
            Some(p) => {
                if p != own_pid {
                    found.push(p);
                }
            },
            None => {},
        }
        i = i + 1;
    }
    assert(all.subrange(0, lines@.len() as int) =~= all);
    found
}

} // verus!
