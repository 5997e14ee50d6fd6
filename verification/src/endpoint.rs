use vstd::prelude::*;

verus! {

/// Whether `c` is a decimal digit.
pub open spec fn is_ascii_digit(c: char) -> bool {
    '0' <= c && c <= '9'
}

/// Whether `c` is a hexadecimal digit.
pub open spec fn is_hex_digit(c: char) -> bool {
    ('0' <= c && c <= '9') || ('a' <= c && c <= 'f') || ('A' <= c && c <= 'F')
}

/// The numeric value of a decimal digit.
pub open spec fn digit_value(c: char) -> int {
    c as int - '0' as int
}

/// Every character of `s` is a decimal digit.
pub open spec fn all_digits(s: Seq<char>) -> bool {
    forall|i: int| 0 <= i < s.len() ==> is_ascii_digit(s[i])
}

/// The number the digit string `s` denotes in base ten.
pub open spec fn digits_value(s: Seq<char>) -> int
    decreases s.len(),
{
    if s.len() == 0 {
        0
    } else {
        digits_value(s.drop_last()) * 10 + digit_value(s.last())
    }
}

/// A decimal number of at most `max_digits` digits and value at most
/// `max_value`, written without a leading zero (except `0` itself).
pub open spec fn valid_number(s: Seq<char>, max_digits: int, max_value: int) -> bool {
    &&& 1 <= s.len() <= max_digits
    &&& all_digits(s)
    &&& (s.len() > 1 ==> s[0] != '0')
    &&& digits_value(s) <= max_value
}

/// One octet of a dotted-quad address: `0` to `255`, no leading zero.
pub open spec fn valid_octet(s: Seq<char>) -> bool {
    valid_number(s, 3, 255)
}

/// A port number: one or more decimal digits denoting `0` to `65535`;
/// leading zeros are allowed.
pub open spec fn valid_port(s: Seq<char>) -> bool {
    &&& s.len() >= 1
    &&& all_digits(s)
    &&& digits_value(s) <= 65535
}

/// One group of a six-form address: one to four hexadecimal digits.
pub open spec fn valid_hex_group(g: Seq<char>) -> bool {
    &&& 1 <= g.len() <= 4
    &&& (forall|i: int| 0 <= i < g.len() ==> is_hex_digit(g[i]))
}

/// Whether the sequence holds a dot anywhere.
pub open spec fn has_dot(s: Seq<char>) -> bool {
    exists|i: int| 0 <= i < s.len() && s[i] == '.'
}

/// The positions at which `c` occurs in `s`, in increasing order.
pub open spec fn positions_of(s: Seq<char>, c: char) -> Seq<int>
    decreases s.len(),
{
    if s.len() == 0 {
        Seq::empty()
    } else {
        let p = positions_of(s.drop_last(), c);
        if s.last() == c {
            p.push(s.len() - 1)
        } else {
            p
        }
    }
}

/// Where the `k`-th piece of `s`, cut at the positions `ps`, begins.
pub open spec fn piece_start(ps: Seq<int>, k: int) -> int {
    if k == 0 {
        0
    } else {
        ps[k - 1] + 1
    }
}

/// Where the `k`-th piece of `s`, cut at the positions `ps`, ends.
pub open spec fn piece_end(s: Seq<char>, ps: Seq<int>, k: int) -> int {
    if k == ps.len() {
        s.len() as int
    } else {
        ps[k]
    }
}

/// The `k`-th piece of `s`, cut at the positions `ps`.
pub open spec fn piece(s: Seq<char>, ps: Seq<int>, k: int) -> Seq<char> {
    s.subrange(piece_start(ps, k), piece_end(s, ps, k))
}

/// Whether the `k`-th piece is empty.
pub open spec fn piece_empty(s: Seq<char>, ps: Seq<int>, k: int) -> bool {
    piece_end(s, ps, k) == piece_start(ps, k)
}

/// Every piece from `from` to `to`, inclusive, is a hexadecimal group.
pub open spec fn hex_pieces(s: Seq<char>, ps: Seq<int>, from: int, to: int) -> bool {
    forall|k: int| from <= k <= to ==> valid_hex_group(piece(s, ps, k))
}

/// The last piece of a six-form address: a hexadecimal group, or, holding
/// dots, a dotted-quad address standing for the final 32 bits.
pub open spec fn valid_last_piece(g: Seq<char>) -> bool {
    if has_dot(g) {
        valid_ipv4(g)
    } else {
        valid_hex_group(g)
    }
}

/// How many 16-bit groups the last piece stands for.
pub open spec fn last_piece_groups(g: Seq<char>) -> int {
    if has_dot(g) {
        2
    } else {
        1
    }
}

/// A dotted-quad address: four valid octets separated by single dots.
pub open spec fn valid_ipv4(s: Seq<char>) -> bool {
    let dots = positions_of(s, '.');
    &&& dots.len() == 3
    &&& valid_octet(s.take(dots[0]))
    &&& valid_octet(s.subrange(dots[0] + 1, dots[1]))
    &&& valid_octet(s.subrange(dots[1] + 1, dots[2]))
    &&& valid_octet(s.skip(dots[2] + 1))
}

/// A six-form address, as it stands between brackets: eight hexadecimal
/// groups separated by colons, where one run of zero groups may be written
/// `::` and the last 32 bits may be written as a dotted-quad address.
pub open spec fn valid_ipv6(a: Seq<char>) -> bool {
    let ps = positions_of(a, ':');
    let n = ps.len() as int;
    if forall|k: int| 0 <= k <= n ==> !piece_empty(a, ps, k) {
        // no `::`: exactly eight groups
        &&& hex_pieces(a, ps, 0, n - 1)
        &&& valid_last_piece(piece(a, ps, n))
        &&& n + last_piece_groups(piece(a, ps, n)) == 8
    } else if n == 2 && a.len() == 2 {
        // `::` alone, the all-zero address
        true
    } else if piece_empty(a, ps, 0) {
        // `::` at the front
        &&& n >= 2
        &&& piece_empty(a, ps, 1)
        &&& (forall|k: int| 2 <= k <= n ==> !piece_empty(a, ps, k))
        &&& hex_pieces(a, ps, 2, n - 1)
        &&& valid_last_piece(piece(a, ps, n))
        &&& n - 2 + last_piece_groups(piece(a, ps, n)) <= 7
    } else if piece_empty(a, ps, n) {
        // `::` at the end
        &&& n >= 2
        &&& piece_empty(a, ps, n - 1)
        &&& (forall|k: int| 0 <= k <= n - 2 ==> !piece_empty(a, ps, k))
        &&& hex_pieces(a, ps, 0, n - 2)
        &&& n - 1 <= 7
    } else {
        // `::` in the middle
        exists|k0: int|
            {
                &&& 1 <= k0 <= n - 1
                &&& piece_empty(a, ps, k0)
                &&& (forall|k: int| 0 <= k <= n && k != k0 ==> !piece_empty(a, ps, k))
                &&& hex_pieces(a, ps, 0, k0 - 1)
                &&& hex_pieces(a, ps, k0 + 1, n - 1)
                &&& valid_last_piece(piece(a, ps, n))
                &&& n - 1 + last_piece_groups(piece(a, ps, n)) <= 7
            }
    }
}

/// An export endpoint: a dotted-quad address and a port separated by a
/// single colon, as in `127.0.0.1:9090`, or a bracketed six-form address
/// and a port, as in `[::1]:9090`.
pub open spec fn valid_endpoint(s: Seq<char>) -> bool {
    if s.len() > 0 && s[0] == '[' {
        let rb = positions_of(s, ']');
        &&& rb.len() == 1
        &&& rb[0] + 1 < s.len()
        &&& s[rb[0] + 1] == ':'
        &&& valid_ipv6(s.subrange(1, rb[0]))
        &&& valid_port(s.skip(rb[0] + 2))
    } else {
        let colons = positions_of(s, ':');
        &&& colons.len() == 1
        &&& valid_ipv4(s.take(colons[0]))
        &&& valid_port(s.skip(colons[0] + 1))
    }
}

/// Every recorded position is in range, holds `c`, and the positions
/// strictly increase.
pub proof fn lemma_positions_of(s: Seq<char>, c: char)
    ensures
        forall|k: int|
            0 <= k < positions_of(s, c).len() ==> 0 <= #[trigger] positions_of(s, c)[k] < s.len()
                && s[positions_of(s, c)[k]] == c,
        forall|k1: int, k2: int|
            0 <= k1 < k2 < positions_of(s, c).len() ==> positions_of(s, c)[k1] < positions_of(
                s,
                c,
            )[k2],
    decreases s.len(),
{
    if s.len() == 0 {
    } else {
        lemma_positions_of(s.drop_last(), c);
        let p = positions_of(s.drop_last(), c);
        assert forall|k: int|
            0 <= k < positions_of(s, c).len() implies 0 <= #[trigger] positions_of(s, c)[k]
            < s.len() && s[positions_of(s, c)[k]] == c by {
            if k < p.len() {
                assert(positions_of(s, c)[k] == p[k]);
                assert(s.drop_last()[p[k]] == s[p[k]]);
            }
        }
    }
}

/// The digit string's value is non-negative and bounded by its length.
pub proof fn lemma_digits_value_bounds(s: Seq<char>)
    requires
        all_digits(s),
    ensures
        0 <= digits_value(s),
        s.len() <= 1 ==> digits_value(s) <= 9,
        s.len() <= 2 ==> digits_value(s) <= 99,
        s.len() <= 3 ==> digits_value(s) <= 999,
        s.len() <= 4 ==> digits_value(s) <= 9999,
        s.len() <= 5 ==> digits_value(s) <= 99999,
    decreases s.len(),
{
    if s.len() == 0 {
    } else {
        assert(all_digits(s.drop_last()));
        lemma_digits_value_bounds(s.drop_last());
        assert(0 <= digit_value(s.last()) <= 9);
    }
}

/// Whether `s` is a decimal number of at most `max_digits` digits, without
/// a leading zero, whose value is at most `max_value`.
fn check_number(s: &str, max_digits: usize, max_value: u32) -> (r: bool)
    requires
        1 <= max_digits <= 5,
    ensures
        r == valid_number(s@, max_digits as int, max_value as int),
{
    let n = s.unicode_len();
    if n < 1 || n > max_digits {
        return false;
    }
    if n > 1 && s.get_char(0) == '0' {
        return false;
    }
    let mut value: u32 = 0;
    let mut i: usize = 0;
    while i < n
        invariant
            n == s@.len(),
            1 <= n <= 5,
            0 <= i <= n,
            all_digits(s@.take(i as int)),
            value == digits_value(s@.take(i as int)),
            value <= 99999,
        decreases n - i,
    {
        let ch = s.get_char(i);
        if !('0' <= ch && ch <= '9') {
            assert(!all_digits(s@));
            return false;
        }
        proof {
            assert(s@.take(i as int + 1).drop_last() =~= s@.take(i as int));
            assert(s@.take(i as int + 1).last() == s@[i as int]);
            assert(all_digits(s@.take(i as int)));
            lemma_digits_value_bounds(s@.take(i as int));
        }
        value = value * 10 + (ch as u32 - '0' as u32);
        i = i + 1;
    }
    proof {
        assert(s@.take(n as int) =~= s@);
    }
    value <= max_value
}

/// Whether `s` is a port number: any run of digits denoting `0` to `65535`.
fn check_port(s: &str) -> (r: bool)
    ensures
        r == valid_port(s@),
{
    let n = s.unicode_len();
    if n < 1 {
        return false;
    }
    let mut value: u32 = 0;
    let mut i: usize = 0;
    while i < n
        invariant
            n == s@.len(),
            0 <= i <= n,
            all_digits(s@.take(i as int)),
            value <= 65535 ==> value == digits_value(s@.take(i as int)),
            value > 65535 ==> value == 65536 && digits_value(s@.take(i as int)) > 65535,
            value <= 65536,
        decreases n - i,
    {
        let ch = s.get_char(i);
        if !('0' <= ch && ch <= '9') {
            assert(!all_digits(s@));
            return false;
        }
        proof {
            assert(s@.take(i as int + 1).drop_last() =~= s@.take(i as int));
            assert(s@.take(i as int + 1).last() == s@[i as int]);
            lemma_digits_value_bounds(s@.take(i as int));
        }
        if value > 65535 {
            // the value can only grow with further digits
            assert(digits_value(s@.take(i as int + 1)) == digits_value(s@.take(i as int)) * 10
                + digit_value(s@[i as int]));
        } else {
            value = value * 10 + (ch as u32 - '0' as u32);
            if value > 65535 {
                value = 65536;
            }
        }
        i = i + 1;
    }
    proof {
        assert(s@.take(n as int) =~= s@);
    }
    value <= 65535
}

/// Whether `g` is a hexadecimal group of one to four digits.
fn check_hex_group(g: &str) -> (r: bool)
    ensures
        r == valid_hex_group(g@),
{
    let n = g.unicode_len();
    if n < 1 || n > 4 {
        return false;
    }
    let mut i: usize = 0;
    while i < n
        invariant
            n == g@.len(),
            0 <= i <= n,
            forall|j: int| 0 <= j < i ==> is_hex_digit(g@[j]),
        decreases n - i,
    {
        let ch = g.get_char(i);
        if !(('0' <= ch && ch <= '9') || ('a' <= ch && ch <= 'f') || ('A' <= ch && ch <= 'F')) {
            return false;
        }
        i = i + 1;
    }
    true
}

/// Whether `g` holds a dot anywhere.
fn str_has_dot(g: &str) -> (r: bool)
    ensures
        r == has_dot(g@),
{
    let n = g.unicode_len();
    let mut i: usize = 0;
    while i < n
        invariant
            n == g@.len(),
            0 <= i <= n,
            forall|j: int| 0 <= j < i ==> g@[j] != '.',
        decreases n - i,
    {
        if g.get_char(i) == '.' {
            return true;
        }
        i = i + 1;
    }
    false
}

/// Whether the last piece of a six-form address is valid, and how many
/// groups it stands for (2 for an embedded dotted quad, else 1).
fn check_last_piece(g: &str) -> (r: (bool, usize))
    ensures
        r.0 == valid_last_piece(g@),
        r.1 == last_piece_groups(g@),
{
    if str_has_dot(g) {
        (check_ipv4(g), 2)
    } else {
        (check_hex_group(g), 1)
    }
}

/// Collect the positions of `c` in `s`, in increasing order.
fn collect_positions(s: &str, c: char) -> (r: Vec<usize>)
    ensures
        r@.map_values(|u: usize| u as int) == positions_of(s@, c),
{
    let n = s.unicode_len();
    let mut found: Vec<usize> = Vec::new();
    let mut i: usize = 0;
    while i < n
        invariant
            n == s@.len(),
            0 <= i <= n,
            found@.map_values(|u: usize| u as int) =~= positions_of(s@.take(i as int), c),
        decreases n - i,
    {
        let ch = s.get_char(i);
        proof {
            assert(s@.take(i as int + 1).drop_last() =~= s@.take(i as int));
            assert(s@.take(i as int + 1).last() == s@[i as int]);
        }
        if ch == c {
            found.push(i);
        }
        proof {
            assert(found@.map_values(|u: usize| u as int) =~= positions_of(
                s@.take(i as int + 1),
                c,
            ));
        }
        i = i + 1;
    }
    proof {
        assert(s@.take(n as int) =~= s@);
    }
    found
}

/// Whether `s` is a dotted-quad address.
fn check_ipv4(s: &str) -> (r: bool)
    ensures
        r == valid_ipv4(s@),
{
    let n = s.unicode_len();
    let dots = collect_positions(s, '.');
    if dots.len() != 3 {
        return false;
    }
    let d0 = dots[0];
    let d1 = dots[1];
    let d2 = dots[2];
    proof {
        lemma_positions_of(s@, '.');
        assert(positions_of(s@, '.')[0] == d0 as int);
        assert(positions_of(s@, '.')[1] == d1 as int);
        assert(positions_of(s@, '.')[2] == d2 as int);
    }
    let o1 = s.substring_char(0, d0);
    let o2 = s.substring_char(d0 + 1, d1);
    let o3 = s.substring_char(d1 + 1, d2);
    let o4 = s.substring_char(d2 + 1, n);
    proof {
        assert(o1@ =~= s@.take(d0 as int));
        assert(o4@ =~= s@.skip(d2 as int + 1));
    }
    check_number(o1, 3, 255) && check_number(o2, 3, 255) && check_number(o3, 3, 255)
        && check_number(o4, 3, 255)
}

/// The piece of `s` from the colon before position `k` to the colon at it
/// (or the ends of `s`), as an executable string.
fn get_piece<'a>(s: &'a str, cps: &Vec<usize>, k: usize) -> (r: &'a str)
    requires
        cps@.map_values(|u: usize| u as int) == positions_of(s@, ':'),
        k <= cps@.len(),
    ensures
        r@ == piece(s@, positions_of(s@, ':'), k as int),
        (r@.len() == 0) == piece_empty(s@, positions_of(s@, ':'), k as int),
{
    proof {
        lemma_positions_of(s@, ':');
        assert forall|j: int|
            0 <= j < cps@.len() implies #[trigger] cps@[j] as int == positions_of(s@, ':')[j] by {
            assert(cps@.map_values(|u: usize| u as int)[j] == cps@[j] as int);
        }
    }
    let ghost ps = positions_of(s@, ':');
    let n = s.unicode_len();
    let start: usize = if k == 0 {
        0
    } else {
        proof {
            assert(cps@[k as int - 1] as int == ps[k as int - 1]);
            assert(ps[k as int - 1] < s@.len());
        }
        cps[k - 1] + 1
    };
    let end: usize = if k == cps.len() {
        n
    } else {
        cps[k]
    };
    proof {
        assert(start as int == piece_start(ps, k as int));
        assert(end as int == piece_end(s@, ps, k as int));
        if k > 0 && k < cps@.len() {
            assert(ps[k as int - 1] < ps[k as int]);
        }
        assert(start <= end);
        assert(end <= s@.len());
    }
    let r = s.substring_char(start, end);
    proof {
        assert(r@ =~= piece(s@, ps, k as int));
    }
    r
}

/// Every piece from `from` to one before `to_excl` is a hexadecimal group.
fn check_hex_pieces(s: &str, cps: &Vec<usize>, from: usize, to_excl: usize) -> (r: bool)
    requires
        cps@.map_values(|u: usize| u as int) == positions_of(s@, ':'),
        to_excl <= cps@.len() + 1,
    ensures
        r == hex_pieces(s@, positions_of(s@, ':'), from as int, to_excl as int - 1),
{
    let mut k = from;
    while k < to_excl
        invariant
            cps@.map_values(|u: usize| u as int) == positions_of(s@, ':'),
            to_excl <= cps@.len() + 1,
            from <= k,
            forall|j: int| from <= j < k ==> valid_hex_group(piece(s@, positions_of(s@, ':'), j)),
        decreases to_excl - k,
    {
        let g = get_piece(s, cps, k);
        if !check_hex_group(g) {
            return false;
        }
        k = k + 1;
    }
    true
}

/// The least index of an empty piece, if any piece is empty.
fn find_first_empty(a: &str, cps: &Vec<usize>) -> (r: Option<usize>)
    requires
        cps@.map_values(|u: usize| u as int) == positions_of(a@, ':'),
    ensures
        match r {
            Some(k0) => k0 <= cps@.len() && piece_empty(a@, positions_of(a@, ':'), k0 as int) && (
            forall|j: int| 0 <= j < k0 ==> !piece_empty(a@, positions_of(a@, ':'), j)),
            None => forall|j: int|
                0 <= j <= cps@.len() ==> !piece_empty(a@, positions_of(a@, ':'), j),
        },
{
    let n = cps.len();
    let mut k: usize = 0;
    while k < n
        invariant
            cps@.map_values(|u: usize| u as int) == positions_of(a@, ':'),
            n == cps@.len(),
            0 <= k <= n,
            forall|j: int| 0 <= j < k ==> !piece_empty(a@, positions_of(a@, ':'), j),
        decreases n - k,
    {
        if get_piece(a, cps, k).unicode_len() == 0 {
            return Some(k);
        }
        k = k + 1;
    }
    if get_piece(a, cps, n).unicode_len() == 0 {
        return Some(n);
    }
    None
}

/// Whether `a` is a six-form address in the bracketed textual form.
fn check_ipv6(a: &str) -> (r: bool)
    ensures
        r == valid_ipv6(a@),
{
    let n_chars = a.unicode_len();
    let cps = collect_positions(a, ':');
    let n = cps.len();
    let ghost ps = positions_of(a@, ':');
    let first_empty = find_first_empty(a, &cps);
    match first_empty {
        None => {
            // no `::`: exactly eight groups
            let (last_ok, weight) = check_last_piece(get_piece(a, &cps, n));
            check_hex_pieces(a, &cps, 0, n) && last_ok && ((weight == 1 && n == 7) || (weight == 2
                && n == 6))
        },
        Some(k0) => {
            if n == 2 && n_chars == 2 {
                // `::` alone
                return true;
            }
            if k0 == 0 {
                // `::` at the front: the piece after it must be empty too
                if n < 2 {
                    return false;
                }
                if get_piece(a, &cps, 1).unicode_len() != 0 {
                    return false;
                }
                let mut j: usize = 2;
                while j < n
                    invariant
                        cps@.map_values(|u: usize| u as int) == positions_of(a@, ':'),
                        n == cps@.len(),
                        n_chars == a@.len(),
                        !(n == 2 && n_chars == 2),
                        piece_empty(a@, positions_of(a@, ':'), 0),
                        piece_empty(a@, positions_of(a@, ':'), 1),
                        2 <= j <= n,
                        forall|m: int| 2 <= m < j ==> !piece_empty(a@, positions_of(a@, ':'), m),
                    decreases n - j,
                {
                    if get_piece(a, &cps, j).unicode_len() == 0 {
                        return false;
                    }
                    j = j + 1;
                }
                let gn = get_piece(a, &cps, n);
                if gn.unicode_len() == 0 {
                    return false;
                }
                let (last_ok, weight) = check_last_piece(gn);
                return check_hex_pieces(a, &cps, 2, n) && last_ok && ((weight == 1 && n <= 8) || (
                weight == 2 && n <= 7));
            }
            // from here the first piece is nonempty
            let gn = get_piece(a, &cps, n);
            if gn.unicode_len() == 0 {
                // `::` at the end: the piece before it is the only other empty
                proof {
                    assert(n >= 1);
                }
                return k0 == n - 1 && check_hex_pieces(a, &cps, 0, n - 1) && n <= 8;
            }
            // `::` in the middle: no other piece may be empty
            proof {
                assert(k0 < n);
            }
            let mut j: usize = k0 + 1;
            while j < n
                invariant
                    cps@.map_values(|u: usize| u as int) == positions_of(a@, ':'),
                    n == cps@.len(),
                    n_chars == a@.len(),
                    !(n == 2 && n_chars == 2),
                    1 <= k0 < n,
                    piece_empty(a@, positions_of(a@, ':'), k0 as int),
                    forall|m: int| 0 <= m < k0 ==> !piece_empty(a@, positions_of(a@, ':'), m),
                    !piece_empty(a@, positions_of(a@, ':'), n as int),
                    k0 < j <= n,
                    forall|m: int| k0 < m < j ==> !piece_empty(a@, positions_of(a@, ':'), m),
                decreases n - j,
            {
                if get_piece(a, &cps, j).unicode_len() == 0 {
                    return false;
                }
                j = j + 1;
            }
            let (last_ok, weight) = check_last_piece(gn);
            let ok = check_hex_pieces(a, &cps, 0, k0) && check_hex_pieces(a, &cps, k0 + 1, n)
                && last_ok && ((weight == 1 && n <= 7) || (weight == 2 && n <= 6));
            proof {
                if ok {
                    assert(valid_ipv6(a@)) by {
                        assert(1 <= k0 as int <= n as int - 1);
                        assert(piece_empty(a@, ps, k0 as int));
                        assert(forall|k: int|
                            0 <= k <= n && k != k0 ==> !piece_empty(a@, ps, k));
                    }
                }
            }
            ok
        },
    }
}

/// Whether `s` is a well-formed export endpoint: an address and a port,
/// as in `127.0.0.1:9090` or `[::1]:9090`.
pub fn validate_endpoint(s: &str) -> (r: bool)
    ensures
        r == valid_endpoint(s@),
{
    let n = s.unicode_len();
    if n > 0 && s.get_char(0) == '[' {
        let rbs = collect_positions(s, ']');
        if rbs.len() != 1 {
            return false;
        }
        let b = rbs[0];
        proof {
            lemma_positions_of(s@, ']');
            assert(positions_of(s@, ']')[0] == b as int);
            assert(s@[b as int] == ']');
            assert(b != 0);
        }
        if b + 1 >= n {
            return false;
        }
        if s.get_char(b + 1) != ':' {
            return false;
        }
        let body = s.substring_char(1, b);
        let port = s.substring_char(b + 2, n);
        proof {
            assert(body@ =~= s@.subrange(1, b as int));
            assert(port@ =~= s@.skip(b as int + 2));
        }
        check_ipv6(body) && check_port(port)
    } else {
        let colons = collect_positions(s, ':');
        if colons.len() != 1 {
            return false;
        }
        let c = colons[0];
        proof {
            lemma_positions_of(s@, ':');
            assert(positions_of(s@, ':')[0] == c as int);
        }
        let host = s.substring_char(0, c);
        let port = s.substring_char(c + 1, n);
        proof {
            assert(host@ =~= s@.take(c as int));
            assert(port@ =~= s@.skip(c as int + 1));
        }
        check_ipv4(host) && check_port(port)
    }
}

} // verus!
