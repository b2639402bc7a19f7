//! Startup settings and comma-separated configuration lists.

use vstd::prelude::*;

use crate::normalise::{chars_views, split_chars, split_on, trim_chars, trimmed};
use crate::policy::names_of;
use crate::text::{chars_of, parse_u64, parsed_u64, string_from_chars};

verus! {

/// Startup settings of the agent core.
#[derive(Debug, Clone)]
pub struct CoreConfig {
    pub asset_id: String,
    pub agent_id: String,
    pub ipc_pipe_name: String,
    pub max_payload_bytes: usize,
}

/// Default cap on one IPC message: one mebibyte.
pub const DEFAULT_MAX_IPC_PAYLOAD_BYTES: usize = 1048576;

impl CoreConfig {
    /// The settings used when none are configured.
    pub fn placeholder() -> (r: Self)
        ensures
            r.asset_id@ == "asset-placeholder"@,
            r.agent_id@ == "agent-core"@,
            r.ipc_pipe_name@ == "\\\\.\\pipe\\tamsilcms-agent-core"@,
            r.max_payload_bytes == DEFAULT_MAX_IPC_PAYLOAD_BYTES,
    {
        CoreConfig {
            asset_id: String::from_str("asset-placeholder"),
            agent_id: String::from_str("agent-core"),
            ipc_pipe_name: String::from_str("\\\\.\\pipe\\tamsilcms-agent-core"),
            max_payload_bytes: DEFAULT_MAX_IPC_PAYLOAD_BYTES,
        }
    }
}

} // verus!

verus! {

/// The items of a comma-separated list: each trimmed, empty ones dropped.
pub open spec fn csv_items(pieces: Seq<Seq<char>>) -> Seq<Seq<char>>
    decreases pieces.len(),
{
    if pieces.len() == 0 {
        Seq::empty()
    } else {
        let prev = csv_items(pieces.drop_last());
        let item = trimmed(pieces.last());
        if item.len() > 0 {
            prev.push(item)
        } else {
            prev
        }
    }
}

/// `s` without its leading `c`s.
pub open spec fn strip_leading(s: Seq<char>, c: char) -> Seq<char>
    decreases s.len(),
{
    if s.len() > 0 && s[0] == c {
        strip_leading(s.drop_first(), c)
    } else {
        s
    }
}

/// The items of a comma-separated list of file extensions: each trimmed and
/// stripped of leading dots, empty ones dropped.
pub open spec fn extension_items(pieces: Seq<Seq<char>>) -> Seq<Seq<char>>
    decreases pieces.len(),
{
    if pieces.len() == 0 {
        Seq::empty()
    } else {
        let prev = extension_items(pieces.drop_last());
        let item = strip_leading(trimmed(pieces.last()), '.');
        if item.len() > 0 {
            prev.push(item)
        } else {
            prev
        }
    }
}

/// The port numbers of a comma-separated list; entries that are not a
/// number below 65536 are dropped.
pub open spec fn port_items(pieces: Seq<Seq<char>>) -> Seq<u16>
    decreases pieces.len(),
{
    if pieces.len() == 0 {
        Seq::empty()
    } else {
        let prev = port_items(pieces.drop_last());
        match parsed_u64(trimmed(pieces.last())) {
            Some(n) => if n <= 65535 {
                prev.push(n as u16)
            } else {
                prev
            },
            None => prev,
        }
    }
}

fn drop_leading_dots(v: &Vec<char>) -> (r: Vec<char>)
    ensures
        r@ == strip_leading(v@, '.'),
{
    let mut a: usize = 0;
    assert(v@.subrange(0, v@.len() as int) =~= v@);
    while a < v.len() && v[a] == '.'
        invariant
            a <= v@.len(),
            strip_leading(v@, '.') == strip_leading(v@.subrange(a as int, v@.len() as int), '.'),
        decreases v.len() - a,
    {
        assert(v@.subrange(a as int, v@.len() as int).drop_first() =~= v@.subrange(a + 1, v@.len() as int));
        a = a + 1;
    }
    let mut out: Vec<char> = Vec::new();
    let mut i: usize = a;
    while i < v.len()
        invariant
            a <= i <= v@.len(),
            out@ == v@.subrange(a as int, i as int),
        decreases v.len() - i,
    {
        out.push(v[i]);
        i = i + 1;
        assert(out@ =~= v@.subrange(a as int, i as int));
    }
    out
}

/// The trimmed, non-empty items of a comma-separated list.
pub fn parse_csv(value: &str) -> (r: Vec<String>)
    ensures
        names_of(r@) == csv_items(split_on(value@, ',')),
{
    let pieces = split_chars(&chars_of(value), ',');
    let ghost views = chars_views(pieces@);
    let mut out: Vec<String> = Vec::new();
    let mut i: usize = 0;
    while i < pieces.len()
        invariant
            i <= pieces@.len(),
            views == chars_views(pieces@),
            views == split_on(value@, ','),
            names_of(out@) == csv_items(views.subrange(0, i as int)),
        decreases pieces.len() - i,
    {
        let ghost sub = views.subrange(0, i + 1);
        assert(sub.drop_last() =~= views.subrange(0, i as int));
        assert(sub.last() == pieces@[i as int]@);
        let item = trim_chars(&pieces[i]);
        if item.len() > 0 {
            let ghost before = out@;
            let text = string_from_chars(&item);
            out.push(text);
            assert(names_of(out@) =~= names_of(before).push(item@));
        }
        i = i + 1;
    }
    assert(views.subrange(0, pieces@.len() as int) =~= views);
    out
}

/// The extensions of a comma-separated list, without leading dots.
pub fn parse_extensions(value: &str) -> (r: Vec<String>)
    ensures
        names_of(r@) == extension_items(split_on(value@, ',')),
{
    let pieces = split_chars(&chars_of(value), ',');
    let ghost views = chars_views(pieces@);
    let mut out: Vec<String> = Vec::new();
    let mut i: usize = 0;
    while i < pieces.len()
        invariant
            i <= pieces@.len(),
            views == chars_views(pieces@),
            views == split_on(value@, ','),
            names_of(out@) == extension_items(views.subrange(0, i as int)),
        decreases pieces.len() - i,
    {
        let ghost sub = views.subrange(0, i + 1);
        assert(sub.drop_last() =~= views.subrange(0, i as int));
        assert(sub.last() == pieces@[i as int]@);
        let item = drop_leading_dots(&trim_chars(&pieces[i]));
        if item.len() > 0 {
            let ghost before = out@;
            let text = string_from_chars(&item);
            out.push(text);
            assert(names_of(out@) =~= names_of(before).push(item@));
        }
        i = i + 1;
    }
    assert(views.subrange(0, pieces@.len() as int) =~= views);
    out
}

/// The port numbers of a comma-separated list.
pub fn parse_ports(value: &str) -> (r: Vec<u16>)
    ensures
        r@ == port_items(split_on(value@, ',')),
{
    let pieces = split_chars(&chars_of(value), ',');
    let ghost views = chars_views(pieces@);
    let mut out: Vec<u16> = Vec::new();
    let mut i: usize = 0;
    while i < pieces.len()
        invariant
            i <= pieces@.len(),
            views == chars_views(pieces@),
            views == split_on(value@, ','),
            out@ == port_items(views.subrange(0, i as int)),
        decreases pieces.len() - i,
    {
        let ghost sub = views.subrange(0, i + 1);
        assert(sub.drop_last() =~= views.subrange(0, i as int));
        assert(sub.last() == pieces@[i as int]@);
        let item = string_from_chars(&trim_chars(&pieces[i]));
        match parse_u64(item.as_str()) {
            Some(n) => {
                if n <= 65535 {
                    out.push(n as u16);
                }
            },
            None => {},
        }
        i = i + 1;
    }
    assert(views.subrange(0, pieces@.len() as int) =~= views);
    out
}

} // verus!
