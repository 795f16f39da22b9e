//! TCP listeners as the Linux kernel lists them in `/proc/net/tcp`.
//!
//! ```text
//!   sl  local_address rem_address   st ...
//!    0: 0100007F:0CEA 00000000:0000 0A ...
//! ```
//!
//! Reading the file is left to the caller; these functions decide what its
//! text says.

use vstd::prelude::*;
use crate::text::{
    after_first, after_first_exec, append_chars, before_first, chars_eq, chars_of, index_of,
    index_of_from, lemma_index_of_bounds, lines, opt_string, slice_range, split_lines,
    split_words, string_from_chars, views, words,
};
use crate::numfmt::{
    decimal, parse_u64_radix, parse_unsigned, radix_string, radix_string_exec, u64_to_decimal,
    zero_pad, zero_pad_exec,
};

verus! {

/// Result of checking a TCP port.
#[derive(Debug)]
pub struct TcpListenerResult {
    /// Whether the port is in LISTEN state
    pub listening: bool,
    /// Local address:port if listening (e.g., "0.0.0.0:22")
    pub local_address: Option<String>,
    /// Error message if collection failed
    pub error: Option<String>,
}

/// Error of a TCP listener query.
#[derive(Debug)]
pub enum TcpListenerError {
    /// API call failed: message and error code
    ApiError(String, u32),
    /// Invalid port
    InvalidPort(u16),
}

// ---------------------------------------------------------------------------
// Specifications
// ---------------------------------------------------------------------------

/// The byte that two hexadecimal characters spell, if they do.
pub open spec fn hex_byte(h: Seq<char>) -> Option<nat> {
    match parse_unsigned(h, 16) {
        Some(v) => if v <= 255 {
            Some(v)
        } else {
            None
        },
        None => None,
    }
}

/// The `i`-th byte of an eight-character hexadecimal address.
pub open spec fn addr_byte(h: Seq<char>, i: int) -> Option<nat> {
    hex_byte(h.subrange(2 * i, 2 * i + 2))
}

/// Dotted-decimal form of an address that `/proc/net/tcp` writes as eight
/// hexadecimal characters, least significant byte first; `invalid` for
/// anything else.
pub open spec fn ipv4_text(h: Seq<char>) -> Seq<char> {
    if h.len() != 8 || addr_byte(h, 0) is None || addr_byte(h, 1) is None || addr_byte(h, 2) is None
        || addr_byte(h, 3) is None {
        "invalid"@
    } else {
        decimal(addr_byte(h, 3).unwrap()) + "."@ + decimal(addr_byte(h, 2).unwrap()) + "."@
            + decimal(addr_byte(h, 1).unwrap()) + "."@ + decimal(addr_byte(h, 0).unwrap())
    }
}

/// `s` holds exactly one `:`.
pub open spec fn single_colon(s: Seq<char>) -> bool {
    after_first(s, ':') is Some && index_of(after_first(s, ':').unwrap(), ':') == after_first(
        s,
        ':',
    ).unwrap().len()
}

/// A port written in hexadecimal, or 0 when it does not parse as a `u16`.
pub open spec fn port_value(ph: Seq<char>) -> nat {
    match parse_unsigned(ph, 16) {
        Some(v) => if v <= 65535 {
            v
        } else {
            0
        },
        None => 0,
    }
}

/// `format!("{:04X}", port)`.
pub open spec fn port_hex(port: nat) -> Seq<char> {
    zero_pad(radix_string(port, 16, false), 4)
}

/// The local address that one line of `/proc/net/tcp` reports listening
/// on port `ph`, within the host filter; `None` otherwise.
pub open spec fn proc_line_listener(line: Seq<char>, ph: Seq<char>, filter: Option<Seq<char>>) -> Option<
    Seq<char>,
> {
    let parts = words(line);
    if parts.len() < 4 || !single_colon(parts[1]) {
        None
    } else {
        let ip_hex = before_first(parts[1], ':').unwrap();
        let local_ph = after_first(parts[1], ':').unwrap();
        let ip = ipv4_text(ip_hex);
        if local_ph != ph || parts[3] != "0A"@ {
            None
        } else if filter is Some && ip != filter.unwrap() && ip != "0.0.0.0"@ {
            None
        } else {
            Some(ip + ":"@ + decimal(port_value(local_ph)))
        }
    }
}

/// The first listener among the lines of `ls` from `i` on.
pub open spec fn first_listener(
    ls: Seq<Seq<char>>,
    i: int,
    ph: Seq<char>,
    filter: Option<Seq<char>>,
) -> Option<Seq<char>>
    decreases ls.len() - i,
{
    if i < 0 || i >= ls.len() {
        None
    } else if proc_line_listener(ls[i], ph, filter) is Some {
        proc_line_listener(ls[i], ph, filter)
    } else {
        first_listener(ls, i + 1, ph, filter)
    }
}

/// The listener on `port` that the text of `/proc/net/tcp` reports: the
/// first line after the header line that reports one.
pub open spec fn proc_listener(content: Seq<char>, port: nat, filter: Option<Seq<char>>) -> Option<
    Seq<char>,
> {
    first_listener(lines(content), 1, port_hex(port), filter)
}

/// The (address, port) pair that one line of `/proc/net/tcp` reports as
/// listening, whatever the port.
pub open spec fn proc_line_any_listener(line: Seq<char>) -> Option<(Seq<char>, nat)> {
    let parts = words(line);
    if parts.len() < 4 || parts[3] != "0A"@ || !single_colon(parts[1]) {
        None
    } else {
        let ip_hex = before_first(parts[1], ':').unwrap();
        let local_ph = after_first(parts[1], ':').unwrap();
        match parse_unsigned(local_ph, 16) {
            Some(p) => if p <= 65535 {
                Some((ipv4_text(ip_hex), p))
            } else {
                None
            },
            None => None,
        }
    }
}

/// All listeners the lines `ls[1..i]` report, in order.
pub open spec fn listeners_upto(ls: Seq<Seq<char>>, i: int) -> Seq<(Seq<char>, nat)>
    decreases i,
{
    if i <= 1 || i > ls.len() {
        Seq::empty()
    } else {
        match proc_line_any_listener(ls[i - 1]) {
            Some(l) => listeners_upto(ls, i - 1).push(l),
            None => listeners_upto(ls, i - 1),
        }
    }
}

// ---------------------------------------------------------------------------
// Implementation
// ---------------------------------------------------------------------------

fn hex_byte_exec(h: &[char]) -> (res: Option<u64>)
    ensures
        match hex_byte(h@) {
            Some(v) => res == Some(v as u64),
            None => res is None,
        },
{
    match parse_u64_radix(h, 16) {
        Some(v) => if v <= 255 {
            Some(v)
        } else {
            None
        },
        None => None,
    }
}

fn ipv4_text_exec(h: &[char]) -> (res: Vec<char>)
    ensures
        res@ == ipv4_text(h@),
{
    if h.len() != 8 {
        return chars_of("invalid");
    }
    let b0 = hex_byte_exec(&slice_range(h, 0, 2));
    let b1 = hex_byte_exec(&slice_range(h, 2, 4));
    let b2 = hex_byte_exec(&slice_range(h, 4, 6));
    let b3 = hex_byte_exec(&slice_range(h, 6, 8));
    match (b0, b1, b2, b3) {
        (Some(x0), Some(x1), Some(x2), Some(x3)) => {
            let mut res = u64_to_decimal(x3);
            append_chars(&mut res, &chars_of("."));
            append_chars(&mut res, &u64_to_decimal(x2));
            append_chars(&mut res, &chars_of("."));
            append_chars(&mut res, &u64_to_decimal(x1));
            append_chars(&mut res, &chars_of("."));
            append_chars(&mut res, &u64_to_decimal(x0));
            res
        },
        _ => chars_of("invalid"),
    }
}

/// Dotted-decimal form of a `/proc/net/tcp` address (`0100007F` is
/// `127.0.0.1`); `invalid` when it is not eight hexadecimal characters.
pub fn hex_to_ipv4(hex: &str) -> (res: String)
    ensures
        res@ == ipv4_text(hex@),
{
    string_from_chars(&ipv4_text_exec(&chars_of(hex)))
}

/// The halves of `s` around its only `:`, if it has exactly one.
fn split_single_colon(s: &[char]) -> (res: Option<(Vec<char>, Vec<char>)>)
    ensures
        res is Some == single_colon(s@),
        res is Some ==> res.unwrap().0@ == before_first(s@, ':').unwrap() && res.unwrap().1@
            == after_first(s@, ':').unwrap(),
{
    let k = index_of_from(s, ':', 0);
    assert(s@.subrange(0, s@.len() as int) =~= s@);
    if k == s.len() {
        return None;
    }
    let after = slice_range(s, k + 1, s.len());
    let k2 = index_of_from(&after, ':', 0);
    assert(after@.subrange(0, after@.len() as int) =~= after@);
    if k2 != after.len() {
        return None;
    }
    Some((slice_range(s, 0, k), after))
}

/// Parses one line of `/proc/net/tcp`: the listening address on port `ph`
/// within the host filter, if the line shows one.
fn parse_proc_tcp_line(line: &[char], ph: &[char], filter: &Option<Vec<char>>) -> (res: Option<Vec<char>>)
    ensures
        res is Some == proc_line_listener(line@, ph@, crate::text::opt_vview(*filter)) is Some,
        res is Some ==> res.unwrap()@ == proc_line_listener(
            line@,
            ph@,
            crate::text::opt_vview(*filter),
        ).unwrap(),
{
    let parts = split_words(line);
    let ghost pv = views(parts@);
    if parts.len() < 4 {
        return None;
    }
    assert(pv[1] == parts@[1]@ && pv[3] == parts@[3]@);
    let (ip_hex, local_ph) = match split_single_colon(&parts[1]) {
        Some(p) => p,
        None => {
            return None;
        },
    };
    if !chars_eq(&local_ph, ph) || !chars_eq(&parts[3], &chars_of("0A")) {
        return None;
    }
    let ip = ipv4_text_exec(&ip_hex);
    if let Some(f) = filter {
        if !chars_eq(&ip, f) && !chars_eq(&ip, &chars_of("0.0.0.0")) {
            return None;
        }
    }
    let port: u64 = match parse_u64_radix(&local_ph, 16) {
        Some(v) => if v <= 65535 {
            v
        } else {
            0
        },
        None => 0,
    };
    let mut addr = ip;
    append_chars(&mut addr, &chars_of(":"));
    append_chars(&mut addr, &u64_to_decimal(port));
    Some(addr)
}

/// `format!("{:04X}", port)`.
pub fn port_hex_exec(port: u16) -> (res: Vec<char>)
    ensures
        res@ == port_hex(port as nat),
{
    zero_pad_exec(radix_string_exec(port as u64, 16, false), 4)
}

/// Whether the text of `/proc/net/tcp` shows `port` listening, on the
/// filtered host or on `0.0.0.0`.  Port 0 is refused.
pub fn find_port_listener(proc_net_tcp: &str, port: u16, host_filter: Option<&str>) -> (res:
    TcpListenerResult)
    ensures
        port == 0 ==> !res.listening && res.local_address is None && (res.error matches Some(e)
            && e@ == "Invalid port: 0"@),
        port != 0 ==> res.error is None && res.listening == proc_listener(
            proc_net_tcp@,
            port as nat,
            match host_filter {
                Some(f) => Some(f@),
                None => None,
            },
        ) is Some && crate::text::opt_view(res.local_address) == proc_listener(
            proc_net_tcp@,
            port as nat,
            match host_filter {
                Some(f) => Some(f@),
                None => None,
            },
        ),
{
    if port == 0 {
        return TcpListenerResult {
            listening: false,
            local_address: None,
            error: Some("Invalid port: 0".to_owned()),
        };
    }
    let ph = port_hex_exec(port);
    let filter: Option<Vec<char>> = match host_filter {
        Some(f) => Some(chars_of(f)),
        None => None,
    };
    let ghost fv = crate::text::opt_vview(filter);
    assert(fv == match host_filter {
        Some(f) => Some(f@),
        None => None::<Seq<char>>,
    });
    let content = chars_of(proc_net_tcp);
    let ls = split_lines(&content);
    let ghost lv = lines(content@);
    let mut i: usize = 1;
    while i < ls.len()
        invariant
            views(ls@) == lv,
            lv == lines(proc_net_tcp@),
            1 <= i,
            port != 0,
            fv == crate::text::opt_vview(filter),
            fv == match host_filter {
                Some(f) => Some(f@),
                None => None::<Seq<char>>,
            },
            ph@ == port_hex(port as nat),
            first_listener(lv, 1, ph@, fv) == first_listener(lv, i as int, ph@, fv),
        decreases ls.len() - i,
    {
        assert(lv[i as int] == ls@[i as int]@);
        if let Some(addr) = parse_proc_tcp_line(&ls[i], &ph, &filter) {
            return TcpListenerResult {
                listening: true,
                local_address: Some(string_from_chars(&addr)),
                error: None,
            };
        }
        i = i + 1;
    }
    TcpListenerResult { listening: false, local_address: None, error: None }
}

fn proc_line_any_exec(line: &[char]) -> (res: Option<(Vec<char>, u16)>)
    ensures
        match proc_line_any_listener(line@) {
            Some((a, p)) => res is Some && res.unwrap().0@ == a && res.unwrap().1 as nat == p,
            None => res is None,
        },
{
    let parts = split_words(line);
    let ghost pv = views(parts@);
    if parts.len() < 4 {
        return None;
    }
    assert(pv[1] == parts@[1]@ && pv[3] == parts@[3]@);
    if !chars_eq(&parts[3], &chars_of("0A")) {
        return None;
    }
    let (ip_hex, local_ph) = match split_single_colon(&parts[1]) {
        Some(p) => p,
        None => {
            return None;
        },
    };
    match parse_u64_radix(&local_ph, 16) {
        Some(p) => if p <= 65535 {
            Some((ipv4_text_exec(&ip_hex), p as u16))
        } else {
            None
        },
        None => None,
    }
}

/// Every (address, port) pair that the text of `/proc/net/tcp` shows in
/// LISTEN state, in the order of its lines (the header line excluded).
pub fn listening_ports_in(proc_net_tcp: &str) -> (res: Vec<(String, u16)>)
    ensures
        res@.len() == listeners_upto(lines(proc_net_tcp@), lines(proc_net_tcp@).len() as int).len(),
        forall|j: int|
            0 <= j < res@.len() ==> {
                let l = listeners_upto(lines(proc_net_tcp@), lines(proc_net_tcp@).len() as int)[j];
                &&& (#[trigger] res@[j]).0@ == l.0
                &&& res@[j].1 as nat == l.1
            },
{
    let content = chars_of(proc_net_tcp);
    let ls = split_lines(&content);
    let ghost lv = lines(content@);
    let mut res: Vec<(String, u16)> = Vec::new();
    let mut i: usize = 1;
    if ls.len() == 0 {
        return res;
    }
    while i < ls.len()
        invariant
            views(ls@) == lv,
            lv == lines(proc_net_tcp@),
            1 <= i <= ls@.len(),
            res@.len() == listeners_upto(lv, i as int).len(),
            forall|j: int|
                0 <= j < res@.len() ==> {
                    let l = listeners_upto(lv, i as int)[j];
                    &&& (#[trigger] res@[j]).0@ == l.0
                    &&& res@[j].1 as nat == l.1
                },
        decreases ls.len() - i,
    {
        assert(lv[i as int] == ls@[i as int]@);
        if let Some((ip, port)) = proc_line_any_exec(&ls[i]) {
            res.push((string_from_chars(&ip), port));
        }
        i = i + 1;
    }
    res
}


// ---------------------------------------------------------------------------
// Laws
// ---------------------------------------------------------------------------

/// A line in LISTEN state (`0A`) on port `ph` reports a listener on its own
/// address, written `<address>:<port>`; the host filter then keeps it when
/// the filter names that address, and keeps a listener on `0.0.0.0` for any
/// filter.  A line in another state, or on another port, reports none.
pub proof fn law_listen_line(line: Seq<char>, ph: Seq<char>, f: Seq<char>)
    requires
        words(line).len() >= 4,
        single_colon(words(line)[1]),
    ensures
        ({
            let ip = ipv4_text(before_first(words(line)[1], ':').unwrap());
            let found = Some(ip + ":"@ + decimal(port_value(ph)));
            after_first(words(line)[1], ':') == Some(ph) && words(line)[3] == "0A"@ ==> {
                &&& proc_line_listener(line, ph, None) == found
                &&& proc_line_listener(line, ph, Some(ip)) == found
                &&& ip == "0.0.0.0"@ ==> proc_line_listener(line, ph, Some(f)) == found
            }
        }),
        words(line)[3] != "0A"@ ==> proc_line_listener(line, ph, None) is None
            && proc_line_listener(line, ph, Some(f)) is None,
        after_first(words(line)[1], ':') != Some(ph) ==> proc_line_listener(line, ph, None) is None
            && proc_line_listener(line, ph, Some(f)) is None,
{
}

/// A host filter only narrows: a listener that a line reports within a
/// filter is the one it reports without a filter, and a listener on an
/// address other than the filter's and `0.0.0.0` is filtered out.
pub proof fn law_host_filter(line: Seq<char>, ph: Seq<char>, ip: Seq<char>, f: Seq<char>)
    requires
        proc_line_listener(line, ph, None) == Some(ip + ":"@ + decimal(port_value(ph))),
    ensures
        proc_line_listener(line, ph, Some(ip)) == proc_line_listener(line, ph, None),
        (ip == f || ip == "0.0.0.0"@) ==> proc_line_listener(line, ph, Some(f)) == proc_line_listener(
            line,
            ph,
            None,
        ),
        (ip != f && ip != "0.0.0.0"@) ==> proc_line_listener(line, ph, Some(f)) is None,
{
    let parts = words(line);
    let own = ipv4_text(before_first(parts[1], ':').unwrap());
    let tail = ":"@ + decimal(port_value(ph));
    assert(own + ":"@ + decimal(port_value(ph)) =~= own + tail);
    assert(ip + ":"@ + decimal(port_value(ph)) =~= ip + tail);
    assert(own + tail == ip + tail);
    assert(own =~= (own + tail).subrange(0, own.len() as int));
    assert(ip =~= (ip + tail).subrange(0, ip.len() as int));
}

/// A port written as `/proc/net/tcp` writes it reads back as that port,
/// so a listener found on `port_hex(port)` is reported as
/// `<address>:<port>`.
pub proof fn law_port_hex_reads_back(port: nat)
    requires
        port <= 65535,
    ensures
        port_value(port_hex(port)) == port,
{
    crate::numfmt::law_zero_padded_reads_back(port, 16, false, 4);
}

/// Listing every listener agrees with asking for one port: a line that the
/// listing reports as `(address, port)` reports, when asked for its own port
/// text without a filter, the listener `<address>:<port>`.
pub proof fn law_listing_agrees_with_query(line: Seq<char>)
    ensures
        proc_line_any_listener(line) matches Some((ip, p)) ==> proc_line_listener(
            line,
            after_first(words(line)[1], ':').unwrap(),
            None,
        ) == Some(ip + ":"@ + decimal(p)),
{
}

/// With a filter, any listener the text reports on a port is also one the
/// text reports without the filter.
pub proof fn law_filter_only_narrows(ls: Seq<Seq<char>>, i: int, ph: Seq<char>, f: Seq<char>)
    ensures
        first_listener(ls, i, ph, Some(f)) is Some ==> first_listener(ls, i, ph, None) is Some,
    decreases ls.len() - i,
{
    if 0 <= i < ls.len() {
        law_filter_only_narrows(ls, i + 1, ph, f);
    }
}

} // verus!
