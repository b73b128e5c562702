//! The kernel's TCP connection table (`/proc/<pid>/net/tcp`): a header line,
//! then one line per socket.
//!
//! ```text
//!   sl  local_address rem_address   st tx_queue rx_queue tr tm->when retrnsmt   uid  timeout inode
//!    0: 0100007F:252B 00000000:0000 0A 00000000:00000000 00:00000000 00000000  1000        0 1000734 1 ...
//! ```
//!
//! The second word of a row is the local address and port, both in hex; the
//! address is a little-endian 32-bit word, so its bytes come in reverse order.
//! The tenth word is the socket's inode, in decimal.

use vstd::prelude::*;

use crate::number::all_digits;
use crate::number::digit_value;
use crate::number::digits_value;
use crate::number::parse_unsigned;
use crate::number::parse_unsigned_at;
use vstd::arithmetic::div_mod::lemma_fundamental_div_mod_converse;

verus! {

/// An IPv4 address, its four octets in network order.
#[derive(Clone, Copy, Debug, PartialEq, Eq, Structural)]
pub struct Ipv4Addr(pub u8, pub u8, pub u8, pub u8);

impl Ipv4Addr {
    /// The address with the given octets.
    pub fn new(a: u8, b: u8, c: u8, d: u8) -> (r: Ipv4Addr)
        ensures
            r == Ipv4Addr(a, b, c, d),
    {
        Ipv4Addr(a, b, c, d)
    }

    /// The loopback address, 127.0.0.1.
    pub fn localhost() -> (r: Ipv4Addr)
        ensures
            r == localhost(),
    {
        Ipv4Addr(127, 0, 0, 1)
    }
}

/// The loopback address, 127.0.0.1.
pub open spec fn localhost() -> Ipv4Addr {
    Ipv4Addr(127, 0, 0, 1)
}

/// The address that the table writes as the little-endian word `v`: its
/// lowest byte is the first octet.
pub open spec fn address_of_word(v: nat) -> Ipv4Addr {
    Ipv4Addr(
        (v % 256) as u8,
        (v / 256 % 256) as u8,
        (v / 65536 % 256) as u8,
        (v / 16777216 % 256) as u8,
    )
}

/// One row of the connection table.
#[derive(Clone, Copy, Debug, PartialEq, Eq, Structural)]
pub struct TcpEntry {
    /// The local address in use.
    pub addr: Ipv4Addr,
    /// The local port.
    pub port: u16,
    /// The inode of the socket.
    pub inode: u64,
}

/// Why a row of the connection table could not be read.
#[derive(Clone, Copy, Debug, PartialEq, Eq, Structural)]
pub enum LineError {
    /// The row has no second word.
    MissingLocalAddress,
    /// The second word has no `:` between address and port.
    MalformedLocalAddress,
    /// The address is not a 32-bit hex number.
    MalformedAddress,
    /// The port is not a 16-bit hex number.
    MalformedPort,
    /// The row has no tenth word.
    MissingInode,
    /// The tenth word is not a 64-bit decimal number.
    MalformedInode,
}

/// White space as `char::is_whitespace` sees it within ASCII.
pub open spec fn is_space(b: u8) -> bool {
    b == 32 || (9 <= b <= 13)
}

/// The first index at or after `i` that does not hold white space.
pub open spec fn space_end(s: Seq<u8>, i: int) -> int
    decreases s.len() - i,
{
    if i >= s.len() || !is_space(s[i]) {
        i
    } else {
        space_end(s, i + 1)
    }
}

/// The first index at or after `i` that holds white space.
pub open spec fn word_end(s: Seq<u8>, i: int) -> int
    decreases s.len() - i,
{
    if i >= s.len() || is_space(s[i]) {
        i
    } else {
        word_end(s, i + 1)
    }
}

/// Where the `k`-th word (counting from 0) at or after index `i` begins.
pub open spec fn word_start(s: Seq<u8>, i: int, k: nat) -> Option<int>
    decreases k,
{
    let a = space_end(s, i);
    if a >= s.len() {
        None
    } else if k == 0 {
        Some(a)
    } else {
        word_start(s, word_end(s, a), (k - 1) as nat)
    }
}

/// The `k`-th word of `s` (counting from 0), words being the runs of bytes
/// between white space.
pub open spec fn word(s: Seq<u8>, k: nat) -> Option<Seq<u8>> {
    match word_start(s, 0, k) {
        Some(a) => Some(s.subrange(a, word_end(s, a))),
        None => None,
    }
}

/// The first index at or after `j` where `t` holds `b`.
pub open spec fn find_from(t: Seq<u8>, b: u8, j: int) -> Option<int>
    decreases t.len() - j,
{
    if j >= t.len() {
        None
    } else if t[j] == b {
        Some(j)
    } else {
        find_from(t, b, j + 1)
    }
}

/// What a row of the table says, or why it says nothing.
pub open spec fn spec_parse_tcp_line(line: Seq<u8>) -> Result<TcpEntry, LineError> {
    match word(line, 1) {
        None => Err(LineError::MissingLocalAddress),
        Some(local) => match find_from(local, 58, 0) {
            None => Err(LineError::MalformedLocalAddress),
            Some(c) => match parse_unsigned(local.take(c), 16, 0xffff_ffff) {
                None => Err(LineError::MalformedAddress),
                Some(v) => match parse_unsigned(local.skip(c + 1), 16, 0xffff) {
                    None => Err(LineError::MalformedPort),
                    Some(p) => match word(line, 9) {
                        None => Err(LineError::MissingInode),
                        Some(t) => match parse_unsigned(t, 10, 0xffff_ffff_ffff_ffff) {
                            None => Err(LineError::MalformedInode),
                            Some(n) => Ok(
                                TcpEntry { addr: address_of_word(v), port: p as u16, inode: n as u64 },
                            ),
                        },
                    },
                },
            },
        },
    }
}

proof fn lemma_space_end(s: Seq<u8>, i: int)
    requires
        0 <= i <= s.len(),
    ensures
        i <= space_end(s, i) <= s.len(),
    decreases s.len() - i,
{
    if i < s.len() && is_space(s[i]) {
        lemma_space_end(s, i + 1);
    }
}

proof fn lemma_word_end(s: Seq<u8>, i: int)
    requires
        0 <= i <= s.len(),
    ensures
        i <= word_end(s, i) <= s.len(),
    decreases s.len() - i,
{
    if i < s.len() && !is_space(s[i]) {
        lemma_word_end(s, i + 1);
    }
}

fn is_space_byte(b: u8) -> (r: bool)
    ensures
        r == is_space(b),
{
    b == 32 || (9 <= b && b <= 13)
}

fn skip_space(s: &[u8], i: usize) -> (r: usize)
    requires
        i <= s@.len(),
    ensures
        r == space_end(s@, i as int),
        i <= r <= s@.len(),
{
    proof {
        lemma_space_end(s@, i as int);
    }
    let mut j = i;
    while j < s.len() && is_space_byte(s[j])
        invariant
            i <= j <= s@.len(),
            space_end(s@, j as int) == space_end(s@, i as int),
        decreases s@.len() - j,
    {
        j = j + 1;
    }
    j
}

fn skip_word(s: &[u8], i: usize) -> (r: usize)
    requires
        i <= s@.len(),
    ensures
        r == word_end(s@, i as int),
        i <= r <= s@.len(),
{
    proof {
        lemma_word_end(s@, i as int);
    }
    let mut j = i;
    while j < s.len() && !is_space_byte(s[j])
        invariant
            i <= j <= s@.len(),
            word_end(s@, j as int) == word_end(s@, i as int),
        decreases s@.len() - j,
    {
        j = j + 1;
    }
    j
}

/// Where the `k`-th word of `s` begins and ends.
fn find_word(s: &[u8], k: usize) -> (r: Option<(usize, usize)>)
    ensures
        r matches Some((a, e)) ==> word_start(s@, 0, k as nat) == Some(a as int) && e == word_end(
            s@,
            a as int,
        ) && a <= e <= s@.len(),
        r is None ==> word_start(s@, 0, k as nat) is None,
{
    let mut i: usize = 0;
    let mut n: usize = k;
    loop
        invariant
            i <= s@.len(),
            word_start(s@, 0, k as nat) == word_start(s@, i as int, n as nat),
        decreases n,
    {
        let a = skip_space(s, i);
        if a == s.len() {
            return None;
        }
        let e = skip_word(s, a);
        if n == 0 {
            return Some((a, e));
        }
        i = e;
        n = n - 1;
    }
}

/// Reads one row of the connection table.
pub fn parse_tcp_line(line: &[u8]) -> (r: Result<TcpEntry, LineError>)
    ensures
        r == spec_parse_tcp_line(line@),
{
    let (a, e) = match find_word(line, 1) {
        None => return Err(LineError::MissingLocalAddress),
        Some(w) => w,
    };
    let ghost local = line@.subrange(a as int, e as int);
    let mut j = a;
    while j < e && line[j] != 58
        invariant
            a <= j <= e <= line@.len(),
            local == line@.subrange(a as int, e as int),
            find_from(local, 58, 0) == find_from(local, 58, j - a),
        decreases e - j,
    {
        assert(local[j - a] == line@[j as int]);
        j = j + 1;
    }
    if j == e {
        return Err(LineError::MalformedLocalAddress);
    }
    assert(local[j - a] == line@[j as int]);
    assert(local.take(j - a) =~= line@.subrange(a as int, j as int));
    assert(local.skip(j - a + 1) =~= line@.subrange(j + 1, e as int));
    let v = match parse_unsigned_at(line, a, j, 16, 0xffff_ffff) {
        None => return Err(LineError::MalformedAddress),
        Some(v) => v,
    };
    let p = match parse_unsigned_at(line, j + 1, e, 16, 0xffff) {
        None => return Err(LineError::MalformedPort),
        Some(p) => p,
    };
    let (ia, ie) = match find_word(line, 9) {
        None => return Err(LineError::MissingInode),
        Some(w) => w,
    };
    let n = match parse_unsigned_at(line, ia, ie, 10, 0xffff_ffff_ffff_ffff) {
        None => return Err(LineError::MalformedInode),
        Some(n) => n,
    };
    let addr = Ipv4Addr(
        (v % 256) as u8,
        (v / 256 % 256) as u8,
        (v / 65536 % 256) as u8,
        (v / 16777216 % 256) as u8,
    );
    Ok(TcpEntry { addr, port: p as u16, inode: n })
}

/// The index of the line feed that ends the line starting at `i`, or the end.
pub open spec fn line_end(s: Seq<u8>, i: int) -> int
    decreases s.len() - i,
{
    if i >= s.len() || s[i] == 10 {
        i
    } else {
        line_end(s, i + 1)
    }
}

/// Whether `line` holds nothing but white space.
pub open spec fn is_blank(line: Seq<u8>) -> bool {
    forall|k: int| 0 <= k < line.len() ==> is_space(#[trigger] line[k])
}

/// A line ends at or after its start, and within the table.
pub proof fn lemma_line_end(s: Seq<u8>, i: int)
    requires
        0 <= i <= s.len(),
    ensures
        i <= line_end(s, i) <= s.len(),
    decreases s.len() - i,
{
    if i < s.len() && s[i] != 10 {
        lemma_line_end(s, i + 1);
    }
}

/// The data rows among the lines that start at or after `i`: the lines that
/// are not blank, less the first of them while `header_seen` is false.
pub open spec fn rows_from(s: Seq<u8>, i: int, header_seen: bool) -> Seq<Seq<u8>>
    decreases s.len() + 1 - i,
    via rows_from_decreases
{
    if i < 0 || i >= s.len() {
        seq![]
    } else {
        let e = line_end(s, i);
        let line = s.subrange(i, e);
        if is_blank(line) {
            rows_from(s, e + 1, header_seen)
        } else if !header_seen {
            rows_from(s, e + 1, true)
        } else {
            seq![line] + rows_from(s, e + 1, true)
        }
    }
}

#[via_fn]
proof fn rows_from_decreases(s: Seq<u8>, i: int, header_seen: bool) {
    if 0 <= i < s.len() {
        lemma_line_end(s, i);
    }
}

/// The data rows of a table: its non-blank lines after the first one, which
/// is the header.
pub open spec fn table_rows(s: Seq<u8>) -> Seq<Seq<u8>> {
    rows_from(s, 0, false)
}

/// What each data row of the table `s` says, in the table's order.
pub open spec fn table_entries(s: Seq<u8>) -> Seq<Result<TcpEntry, LineError>> {
    table_rows(s).map_values(|line: Seq<u8>| spec_parse_tcp_line(line))
}

fn find_line_end(s: &[u8], i: usize) -> (r: usize)
    requires
        i <= s@.len(),
    ensures
        r == line_end(s@, i as int),
        i <= r <= s@.len(),
{
    proof {
        lemma_line_end(s@, i as int);
    }
    let mut j = i;
    while j < s.len() && s[j] != 10
        invariant
            i <= j <= s@.len(),
            line_end(s@, j as int) == line_end(s@, i as int),
        decreases s@.len() - j,
    {
        j = j + 1;
    }
    j
}

fn blank(s: &[u8], i: usize, e: usize) -> (r: bool)
    requires
        i <= e <= s@.len(),
    ensures
        r == is_blank(s@.subrange(i as int, e as int)),
{
    let ghost line = s@.subrange(i as int, e as int);
    let mut j = i;
    while j < e
        invariant
            i <= j <= e <= s@.len(),
            line == s@.subrange(i as int, e as int),
            forall|k: int| 0 <= k < j - i ==> is_space(#[trigger] line[k]),
        decreases e - j,
    {
        assert(line[j - i] == s@[j as int]);
        if !is_space_byte(s[j]) {
            return false;
        }
        j = j + 1;
    }
    true
}

/// Reads every data row of a connection table, in order. A row that cannot be
/// read yields its error in its place; the rows after it are still read.
pub fn parse_file(content: &[u8]) -> (r: Vec<Result<TcpEntry, LineError>>)
    ensures
        r@ == table_entries(content@),
{
    let ghost s = content@;
    let mut out: Vec<Result<TcpEntry, LineError>> = Vec::new();
    let mut i: usize = 0;
    let mut header_seen = false;
    while i < content.len()
        invariant
            s == content@,
            i <= s.len(),
            table_entries(s) == out@ + rows_from(s, i as int, header_seen).map_values(
                |line: Seq<u8>| spec_parse_tcp_line(line),
            ),
        decreases s.len() - i,
    {
        let e = find_line_end(content, i);
        let ghost line = s.subrange(i as int, e as int);
        let ghost rest = rows_from(s, e + 1, true);
        if blank(content, i, e) {
        } else if !header_seen {
            header_seen = true;
        } else {
            let entry = parse_tcp_line(&content[i..e]);
            out.push(entry);
            assert((seq![line] + rest).map_values(|line: Seq<u8>| spec_parse_tcp_line(line))
                =~= seq![spec_parse_tcp_line(line)] + rest.map_values(
                |line: Seq<u8>| spec_parse_tcp_line(line),
            ));
        }
        if e < content.len() {
            i = e + 1;
        } else {
            assert(rows_from(s, e + 1, header_seen) =~= seq![]);
            i = e;
        }
    }
    assert(rows_from(s, i as int, header_seen) =~= seq![]);
    assert(out@ + Seq::<Result<TcpEntry, LineError>>::empty() =~= out@);
    out
}

proof fn lemma_two_more_digits(s: Seq<u8>, n: int)
    requires
        0 <= n,
        n + 2 <= s.len(),
        all_digits(s, 16),
    ensures
        digits_value(s.take(n + 2), 16) == digits_value(s.take(n), 16) * 256 + digits_value(
            s.subrange(n, n + 2),
            16,
        ),
        digits_value(s.subrange(n, n + 2), 16) < 256,
{
    let a = s.take(n);
    let b = s.take(n + 1);
    let t = s.take(n + 2);
    let u = s.subrange(n, n + 2);
    let u1 = u.drop_last();
    assert(digit_value(s[n], 16) is Some);
    assert(digit_value(s[n + 1], 16) is Some);
    let dn = digit_value(s[n], 16)->Some_0;
    let dn1 = digit_value(s[n + 1], 16)->Some_0;
    assert(dn < 16 && dn1 < 16);
    assert(b.drop_last() =~= a);
    assert(b.last() == s[n]);
    assert(digits_value(b, 16) == digits_value(a, 16) * 16 + dn);
    assert(t.drop_last() =~= b);
    assert(t.last() == s[n + 1]);
    assert(digits_value(t, 16) == digits_value(b, 16) * 16 + dn1);
    assert(u1.drop_last() =~= Seq::<u8>::empty());
    assert(digits_value(u1.drop_last(), 16) == 0);
    assert(u1.len() == 1);
    assert(u1.last() == s[n]);
    assert(digits_value(u1, 16) == digits_value(u1.drop_last(), 16) * 16 + dn);
    assert(digits_value(u1, 16) == dn);
    assert(u.last() == s[n + 1]);
    assert(digits_value(u, 16) == dn * 16 + dn1);
}

proof fn lemma_octets_of_word(w3: int, w2: int, w1: int, w0: int)
    requires
        0 <= w3 < 256,
        0 <= w2 < 256,
        0 <= w1 < 256,
        0 <= w0 < 256,
    ensures
        address_of_word((((w3 * 256 + w2) * 256 + w1) * 256 + w0) as nat) == Ipv4Addr(
            w0 as u8,
            w1 as u8,
            w2 as u8,
            w3 as u8,
        ),
{
    let v = ((w3 * 256 + w2) * 256 + w1) * 256 + w0;
    lemma_fundamental_div_mod_converse(v, 256, (w3 * 256 + w2) * 256 + w1, w0);
    lemma_fundamental_div_mod_converse((w3 * 256 + w2) * 256 + w1, 256, w3 * 256 + w2, w1);
    lemma_fundamental_div_mod_converse(v, 65536, w3 * 256 + w2, w1 * 256 + w0);
    lemma_fundamental_div_mod_converse(w3 * 256 + w2, 256, w3, w2);
    lemma_fundamental_div_mod_converse(v, 16777216, w3, (w2 * 256 + w1) * 256 + w0);
    lemma_fundamental_div_mod_converse(w3, 256, 0, w3);
}

/// The address of a row is its eight hex digits read two by two from the
/// end: `AABBCCDD` is the address `DD.CC.BB.AA` (so `0100007F` is 127.0.0.1).
pub proof fn lemma_address_bytes_reversed(s: Seq<u8>)
    requires
        s.len() == 8,
        all_digits(s, 16),
    ensures
        address_of_word(digits_value(s, 16)) == Ipv4Addr(
            digits_value(s.subrange(6, 8), 16) as u8,
            digits_value(s.subrange(4, 6), 16) as u8,
            digits_value(s.subrange(2, 4), 16) as u8,
            digits_value(s.subrange(0, 2), 16) as u8,
        ),
{
    lemma_two_more_digits(s, 0);
    lemma_two_more_digits(s, 2);
    lemma_two_more_digits(s, 4);
    lemma_two_more_digits(s, 6);
    assert(s.take(0) =~= Seq::<u8>::empty());
    assert(s.take(2) =~= s.subrange(0, 2));
    assert(s.take(8) =~= s);
    lemma_octets_of_word(
        digits_value(s.subrange(0, 2), 16) as int,
        digits_value(s.subrange(2, 4), 16) as int,
        digits_value(s.subrange(4, 6), 16) as int,
        digits_value(s.subrange(6, 8), 16) as int,
    );
}

/// Each data row is read on its own: the table yields one result per row, in
/// the rows' order, and a row that cannot be read changes what no other row
/// yields.
pub proof fn lemma_rows_read_independently(s: Seq<u8>)
    ensures
        table_entries(s).len() == table_rows(s).len(),
        forall|i: int|
            0 <= i < table_rows(s).len() ==> #[trigger] table_entries(s)[i] == spec_parse_tcp_line(
                table_rows(s)[i],
            ),
{
}

proof fn lemma_no_colon(t: Seq<u8>, j: int)
    requires
        0 <= j,
        !t.contains(58u8),
    ensures
        find_from(t, 58, j) is None,
    decreases t.len() - j,
{
    if j < t.len() {
        assert(t[j] != 58);
        lemma_no_colon(t, j + 1);
    }
}

/// A row whose second word holds no colon yields a malformed local address.
pub proof fn lemma_missing_colon(line: Seq<u8>)
    requires
        word(line, 1) is Some,
        !word(line, 1)->Some_0.contains(58u8),
    ensures
        spec_parse_tcp_line(line) == Err::<TcpEntry, LineError>(LineError::MalformedLocalAddress),
{
    lemma_no_colon(word(line, 1)->Some_0, 0);
}

} // verus!
