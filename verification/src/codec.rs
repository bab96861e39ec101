//! The expression form plugin descriptors take as runtime citizens: a
//! tagged map of `plugin-core` fields, with numbers carried as canonical
//! decimal text. Decoding reads fields by key, in any order, and refuses a
//! malformed expression with a message naming what is wrong.
use vstd::prelude::*;
use vstd::string::StringExecFns;
use crate::descriptor::{PluginDescriptor, PluginId, PortDecl, port_value, port_values};
use crate::error::Error;
use crate::stream_host::{first_index, lemma_first_index};
use crate::symbol::{Symbol, symbol_value};
use crate::text::{decimal, decimal_text, digit_text, is_blank_text, text_eq};
use crate::wire::{
    PluginFormat, format_from_wire, format_wire_name, lemma_format_wire_round_trip,
    lemma_port_dir_wire_round_trip, lemma_port_media_wire_round_trip, plugin_format,
    PortDir, PortMedia, port_dir, port_dir_from_wire, port_dir_name, port_dir_wire_name, port_media,
    port_media_from_wire, port_media_name, port_media_wire_name,
};

verus! {

/// A number as an expression carries it: its domain and canonical text.
#[derive(Clone, Debug, PartialEq)]
pub struct NumberLiteral {
    /// The number's domain, such as `numbers/i64`.
    pub domain: Symbol,
    /// The canonical decimal text.
    pub canonical: String,
}

/// A runtime expression.
#[derive(Debug)]
pub enum Expr {
    /// A symbol.
    Symbol(Symbol),
    /// A text.
    String(String),
    /// A number.
    Number(NumberLiteral),
    /// A boolean.
    Bool(bool),
    /// An ordered list.
    Vector(Vec<Expr>),
    /// An ordered list of key-value entries.
    Dict(Vec<(Expr, Expr)>),
}

/// The namespace of every descriptor field key and tag.
pub open spec fn field_namespace() -> Seq<char> {
    "plugin-core"@
}

/// `key` is the field key `plugin-core/<name>`.
pub open spec fn is_field(key: Expr, name: Seq<char>) -> bool {
    key matches Expr::Symbol(s) && symbol_value(s) == (Some(field_namespace()), name)
}

/// The first entry of `map` keyed `name`.
pub open spec fn field_index(map: Seq<(Expr, Expr)>, name: Seq<char>) -> Option<int> {
    first_index(map, |entry: (Expr, Expr)| is_field(entry.0, name))
}

/// The value of field `name`, or the refusal naming the missing field.
pub open spec fn field_of(map: Seq<(Expr, Expr)>, name: Seq<char>) -> Result<Expr, Seq<char>> {
    match field_index(map, name) {
        Some(i) => Ok(map[i].1),
        None => Err("plugin descriptor field is missing: "@ + name),
    }
}

/// The entries of a map expression.
pub open spec fn map_of(e: Expr, context: Seq<char>) -> Result<Seq<(Expr, Expr)>, Seq<char>> {
    match e {
        Expr::Dict(entries) => Ok(entries@),
        _ => Err(context + " must be a map"@),
    }
}

/// The items of a vector expression.
pub open spec fn vector_of(e: Expr, context: Seq<char>) -> Result<Seq<Expr>, Seq<char>> {
    match e {
        Expr::Vector(items) => Ok(items@),
        _ => Err(context + " must be a vector"@),
    }
}

/// The text of a string expression.
pub open spec fn string_of(e: Expr, context: Seq<char>) -> Result<Seq<char>, Seq<char>> {
    match e {
        Expr::String(text) => Ok(text@),
        _ => Err(context + " must be a string"@),
    }
}

/// The text of a number, or of a string read as a number.
pub open spec fn number_text_of(e: Expr, context: Seq<char>) -> Result<Seq<char>, Seq<char>> {
    match e {
        Expr::Number(n) => Ok(n.canonical@),
        Expr::String(text) => Ok(text@),
        _ => Err(context + " must be a number"@),
    }
}

/// `c` is a decimal digit.
pub open spec fn is_digit(c: char) -> bool {
    '0' <= c && c <= '9'
}

/// The value of a text of decimal digits.
pub open spec fn digits_value(s: Seq<char>) -> nat
    decreases s.len(),
{
    if s.len() == 0 {
        0
    } else {
        digits_value(s.drop_last()) * 10 + ((s.last() as nat) - ('0' as nat)) as nat
    }
}

/// The digits of an unsigned number's text: without a leading `+`.
pub open spec fn unsigned_digits(t: Seq<char>) -> Seq<char> {
    if t.len() > 0 && t[0] == '+' {
        t.drop_first()
    } else {
        t
    }
}

/// The `u32` a text denotes, as `str::parse::<u32>` reads it: an optional
/// `+`, then at least one decimal digit, with a value that fits.
pub open spec fn parse_u32_text(t: Seq<char>) -> Option<u32> {
    let d = unsigned_digits(t);
    if d.len() > 0 && (forall|i: int| 0 <= i < d.len() ==> is_digit(#[trigger] d[i]))
        && digits_value(d) <= u32::MAX {
        Some(digits_value(d) as u32)
    } else {
        None
    }
}

/// The `u32` a number expression denotes.
pub open spec fn u32_of(e: Expr, context: Seq<char>) -> Result<u32, Seq<char>> {
    match number_text_of(e, context) {
        Ok(t) => match parse_u32_text(t) {
            Some(v) => Ok(v),
            None => Err(context + " must be a u32"@),
        },
        Err(m) => Err(m),
    }
}

/// The `u16` a number expression denotes.
pub open spec fn u16_of(e: Expr, context: Seq<char>) -> Result<u16, Seq<char>> {
    match u32_of(e, context) {
        Ok(v) => if v <= u16::MAX {
            Ok(v as u16)
        } else {
            Err(context + " is out of range for u16"@)
        },
        Err(m) => Err(m),
    }
}

/// A result of this crate carrying the message `m` when it fails.
pub open spec fn fails_with<T>(res: Result<T, Error>, m: Seq<char>) -> bool {
    res matches Err(e) && e is Eval && e->Eval_0@ == m
}

/// The field key `plugin-core/<name>`.
pub fn field(name: &str) -> (res: Expr)
    ensures
        is_field(res, name@),
{
    Expr::Symbol(Symbol::qualified("plugin-core", name))
}

/// A canonical `numbers/i64` literal for `value`.
pub fn number_u32(value: u32) -> (res: Expr)
    ensures
        res matches Expr::Number(n) && symbol_value(n.domain) == (Some("numbers"@), "i64"@)
            && n.canonical@ == decimal_text(value as nat),
{
    Expr::Number(
        NumberLiteral {
            domain: Symbol::qualified("numbers", "i64"),
            canonical: decimal(value as u64),
        },
    )
}

/// Reads the entries of a map expression.
pub fn expr_map<'a>(e: &'a Expr, context: &str) -> (res: Result<&'a [(Expr, Expr)], Error>)
    ensures
        match map_of(*e, context@) {
            Ok(entries) => res matches Ok(r) && r@ == entries,
            Err(m) => fails_with(res, m),
        },
{
    match e {
        Expr::Dict(entries) => Ok(entries.as_slice()),
        _ => Err(Error::eval2(context, " must be a map")),
    }
}

/// Reads the items of a vector expression.
pub fn expr_vector<'a>(e: &'a Expr, context: &str) -> (res: Result<&'a [Expr], Error>)
    ensures
        match vector_of(*e, context@) {
            Ok(items) => res matches Ok(r) && r@ == items,
            Err(m) => fails_with(res, m),
        },
{
    match e {
        Expr::Vector(items) => Ok(items.as_slice()),
        _ => Err(Error::eval2(context, " must be a vector")),
    }
}

/// Reads the text of a string expression.
pub fn expr_string<'a>(e: &'a Expr, context: &str) -> (res: Result<&'a str, Error>)
    ensures
        match string_of(*e, context@) {
            Ok(text) => res matches Ok(r) && r@ == text,
            Err(m) => fails_with(res, m),
        },
{
    match e {
        Expr::String(text) => Ok(text.as_str()),
        _ => Err(Error::eval2(context, " must be a string")),
    }
}

/// Reads the text of a number expression (or of a string).
pub fn number_text<'a>(e: &'a Expr, context: &str) -> (res: Result<&'a str, Error>)
    ensures
        match number_text_of(*e, context@) {
            Ok(text) => res matches Ok(r) && r@ == text,
            Err(m) => fails_with(res, m),
        },
{
    match e {
        Expr::Number(n) => Ok(n.canonical.as_str()),
        Expr::String(text) => Ok(text.as_str()),
        _ => Err(Error::eval2(context, " must be a number")),
    }
}

/// Each further digit keeps a digit prefix's value from falling.
proof fn lemma_digits_value_grows(s: Seq<char>, i: int)
    requires
        0 <= i <= s.len(),
    ensures
        digits_value(s.take(i)) <= digits_value(s),
    decreases s.len() - i,
{
    if i < s.len() {
        lemma_digits_value_grows(s, i + 1);
        assert(s.take(i + 1).drop_last() =~= s.take(i));
    } else {
        assert(s.take(i) =~= s);
    }
}

/// Parses a `u32` as `str::parse::<u32>` does.
pub fn parse_u32(t: &str) -> (res: Option<u32>)
    ensures
        res == parse_u32_text(t@),
{
    let n = t.unicode_len();
    let mut start: usize = 0;
    if n > 0 && t.get_char(0) == '+' {
        start = 1;
    }
    let ghost d = unsigned_digits(t@);
    assert(d =~= t@.subrange(start as int, n as int));
    if start == n {
        return None;
    }
    let mut value: u64 = 0;
    let mut i: usize = start;
    while i < n
        invariant
            start <= i <= n,
            n == t@.len(),
            d == t@.subrange(start as int, n as int),
            d == unsigned_digits(t@),
            value == digits_value(d.take(i - start)),
            value <= u32::MAX,
            forall|j: int| 0 <= j < i - start ==> is_digit(#[trigger] d[j]),
        decreases n - i,
    {
        let c = t.get_char(i);
        assert(c == d[i - start]);
        if c < '0' || c > '9' {
            assert(!is_digit(d[i - start]));
            return None;
        }
        let digit = (c as u32 - '0' as u32) as u64;
        assert(d.take(i - start + 1).drop_last() =~= d.take(i - start));
        assert(d.take(i - start + 1).last() == c);
        value = value * 10 + digit;
        assert(value == digits_value(d.take(i - start + 1)));
        if value > u32::MAX as u64 {
            proof {
                lemma_digits_value_grows(d, i - start + 1);
            }
            return None;
        }
        i = i + 1;
    }
    assert(d.take(i - start) =~= d);
    Some(value as u32)
}

/// Reads a `u32` number.
pub fn expr_u32(e: &Expr, context: &str) -> (res: Result<u32, Error>)
    ensures
        match u32_of(*e, context@) {
            Ok(v) => res == Ok::<u32, Error>(v),
            Err(m) => fails_with(res, m),
        },
{
    let text = match number_text(e, context) {
        Ok(t) => t,
        Err(err) => return Err(err),
    };
    match parse_u32(text) {
        Some(v) => Ok(v),
        None => Err(Error::eval2(context, " must be a u32")),
    }
}

/// Reads a `u16` number.
pub fn expr_u16(e: &Expr, context: &str) -> (res: Result<u16, Error>)
    ensures
        match u16_of(*e, context@) {
            Ok(v) => res == Ok::<u16, Error>(v),
            Err(m) => fails_with(res, m),
        },
{
    let v = match expr_u32(e, context) {
        Ok(v) => v,
        Err(err) => return Err(err),
    };
    if v > u16::MAX as u32 {
        return Err(Error::eval2(context, " is out of range for u16"));
    }
    Ok(v as u16)
}

/// `key` is the symbol `<namespace>/<name>`.
pub open spec fn is_keyed(key: Expr, namespace: Seq<char>, name: Seq<char>) -> bool {
    key matches Expr::Symbol(s) && symbol_value(s) == (Some(namespace), name)
}

/// The value of the first entry keyed `<namespace>/<name>`.
pub open spec fn keyed_value(map: Seq<(Expr, Expr)>, namespace: Seq<char>, name: Seq<char>) -> Option<
    Expr,
> {
    match first_index(map, |entry: (Expr, Expr)| is_keyed(entry.0, namespace, name)) {
        Some(i) => Some(map[i].1),
        None => None,
    }
}

/// Finds the value of the first entry keyed `<namespace>/<name>`.
pub fn lookup_keyed<'a>(map: &'a [(Expr, Expr)], namespace: &str, name: &str) -> (res: Option<
    &'a Expr,
>)
    ensures
        match keyed_value(map@, namespace@, name@) {
            Some(v) => res matches Some(r) && *r == v,
            None => res is None,
        },
{
    let mut i: usize = 0;
    while i < map.len()
        invariant
            i <= map@.len(),
            forall|j: int| 0 <= j < i ==> !is_keyed(#[trigger] map@[j].0, namespace@, name@),
        decreases map@.len() - i,
    {
        let hit = match &map[i].0 {
            Expr::Symbol(s) => match &s.namespace {
                Some(ns) => text_eq(ns.as_str(), namespace) && text_eq(s.name.as_str(), name),
                None => false,
            },
            _ => false,
        };
        if hit {
            proof {
                lemma_first_index(
                    map@,
                    |entry: (Expr, Expr)| is_keyed(entry.0, namespace@, name@),
                    i as int,
                );
            }
            return Some(&map[i].1);
        }
        i = i + 1;
    }
    proof {
        lemma_first_index(map@, |entry: (Expr, Expr)| is_keyed(entry.0, namespace@, name@), 0);
    }
    None
}

/// Reports whether `key` is the field key `plugin-core/<name>`.
fn key_is_field(key: &Expr, name: &str) -> (res: bool)
    ensures
        res == is_field(*key, name@),
{
    match key {
        Expr::Symbol(s) => match &s.namespace {
            Some(ns) => text_eq(ns.as_str(), "plugin-core") && text_eq(s.name.as_str(), name),
            None => false,
        },
        _ => false,
    }
}

/// Reads field `name` of a map: the value of the first entry keyed
/// `plugin-core/<name>`.
pub fn lookup_required<'a>(map: &'a [(Expr, Expr)], name: &str) -> (res: Result<&'a Expr, Error>)
    ensures
        match field_of(map@, name@) {
            Ok(v) => res matches Ok(r) && *r == v,
            Err(m) => fails_with(res, m),
        },
{
    let mut i: usize = 0;
    while i < map.len()
        invariant
            i <= map@.len(),
            forall|j: int| 0 <= j < i ==> !is_field(#[trigger] map@[j].0, name@),
        decreases map@.len() - i,
    {
        if key_is_field(&map[i].0, name) {
            proof {
                lemma_first_index(map@, |entry: (Expr, Expr)| is_field(entry.0, name@), i as int);
            }
            return Ok(&map[i].1);
        }
        i = i + 1;
    }
    proof {
        lemma_first_index(map@, |entry: (Expr, Expr)| is_field(entry.0, name@), 0);
    }
    Err(Error::eval2("plugin descriptor field is missing: ", name))
}

/// The value a port expression decodes to: the channel count first (it
/// must be a non-zero `u16`), then the name, the medium and the direction.
pub open spec fn port_decoded(e: Expr) -> Result<(Seq<char>, PortMedia, PortDir, u16), Seq<char>> {
    match map_of(e, "plugin port"@) {
        Err(m) => Err(m),
        Ok(map) => match field_of(map, "channels"@) {
            Err(m) => Err(m),
            Ok(ce) => match u16_of(ce, "port channels"@) {
                Err(m) => Err(m),
                Ok(channels) => if channels == 0 {
                    Err("plugin port channel count must be greater than zero"@)
                } else {
                    match field_of(map, "name"@) {
                        Err(m) => Err(m),
                        Ok(ne) => match string_of(ne, "port name"@) {
                            Err(m) => Err(m),
                            Ok(name) => match field_of(map, "media"@) {
                                Err(m) => Err(m),
                                Ok(me) => match string_of(me, "port media"@) {
                                    Err(m) => Err(m),
                                    Ok(mt) => match port_media_from_wire(mt) {
                                        None => Err("unknown plugin port media: "@ + mt),
                                        Some(media) => match field_of(map, "dir"@) {
                                            Err(m) => Err(m),
                                            Ok(de) => match string_of(de, "port direction"@) {
                                                Err(m) => Err(m),
                                                Ok(dt) => match port_dir_from_wire(dt) {
                                                    None => Err(
                                                        "unknown plugin port direction: "@ + dt,
                                                    ),
                                                    Some(dir) => Ok((name, media, dir, channels)),
                                                },
                                            },
                                        },
                                    },
                                },
                            },
                        },
                    }
                },
            },
        },
    }
}

/// The values a list of port expressions decodes to, in order; the first
/// refused item refuses the list.
pub open spec fn ports_decoded(items: Seq<Expr>) -> Result<
    Seq<(Seq<char>, PortMedia, PortDir, u16)>,
    Seq<char>,
>
    decreases items.len(),
{
    if items.len() == 0 {
        Ok(Seq::empty())
    } else {
        match ports_decoded(items.drop_last()) {
            Err(m) => Err(m),
            Ok(before) => match port_decoded(items.last()) {
                Err(m) => Err(m),
                Ok(p) => Ok(before.push(p)),
            },
        }
    }
}

/// `e` is the expression of the port `p`: its name, medium, direction and
/// channel count, keyed in that order.
pub open spec fn encodes_port(e: Expr, p: (Seq<char>, PortMedia, PortDir, u16)) -> bool {
    &&& e matches Expr::Dict(entries)
    &&& entries@.len() == 4
    &&& is_field(entries@[0].0, "name"@)
    &&& is_field(entries@[1].0, "media"@)
    &&& is_field(entries@[2].0, "dir"@)
    &&& is_field(entries@[3].0, "channels"@)
    &&& entries@[0].1 matches Expr::String(name) && name@ == p.0
    &&& entries@[1].1 matches Expr::String(media) && media@ == port_media_wire_name(p.1)
    &&& entries@[2].1 matches Expr::String(dir) && dir@ == port_dir_wire_name(p.2)
    &&& entries@[3].1 matches Expr::Number(n) && symbol_value(n.domain) == (
        Some("numbers"@),
        "i64"@,
    ) && n.canonical@ == decimal_text(p.3 as nat)
}

/// Encodes a port declaration.
pub fn port_to_expr(port: &PortDecl) -> (res: Expr)
    ensures
        encodes_port(res, port_value(*port)),
{
    let mut entries: Vec<(Expr, Expr)> = Vec::new();
    entries.push((field("name"), Expr::String(port.name.clone())));
    entries.push((field("media"), Expr::String(String::from_str(port_media_name(port.media)))));
    entries.push((field("dir"), Expr::String(String::from_str(port_dir_name(port.dir)))));
    entries.push((field("channels"), number_u32(port.channels as u32)));
    Expr::Dict(entries)
}

/// Decodes a port declaration.
pub fn port_from_expr(e: &Expr) -> (res: Result<PortDecl, Error>)
    ensures
        match port_decoded(*e) {
            Ok(v) => res matches Ok(p) && port_value(p) == v,
            Err(m) => fails_with(res, m),
        },
{
    let map = match expr_map(e, "plugin port") {
        Ok(m) => m,
        Err(err) => return Err(err),
    };
    let ce = match lookup_required(map, "channels") {
        Ok(v) => v,
        Err(err) => return Err(err),
    };
    let channels = match expr_u16(ce, "port channels") {
        Ok(c) => c,
        Err(err) => return Err(err),
    };
    if channels == 0 {
        return Err(Error::eval("plugin port channel count must be greater than zero"));
    }
    let ne = match lookup_required(map, "name") {
        Ok(v) => v,
        Err(err) => return Err(err),
    };
    let name = match expr_string(ne, "port name") {
        Ok(t) => t,
        Err(err) => return Err(err),
    };
    let me = match lookup_required(map, "media") {
        Ok(v) => v,
        Err(err) => return Err(err),
    };
    let mt = match expr_string(me, "port media") {
        Ok(t) => t,
        Err(err) => return Err(err),
    };
    let media = match port_media(mt) {
        Ok(m) => m,
        Err(err) => return Err(err),
    };
    let de = match lookup_required(map, "dir") {
        Ok(v) => v,
        Err(err) => return Err(err),
    };
    let dt = match expr_string(de, "port direction") {
        Ok(t) => t,
        Err(err) => return Err(err),
    };
    let dir = match port_dir(dt) {
        Ok(d) => d,
        Err(err) => return Err(err),
    };
    Ok(PortDecl::new(String::from_str(name), media, dir, channels))
}

/// Once a prefix of a port list is refused, every longer prefix is refused
/// with the same message.
proof fn lemma_ports_refusal_sticks(items: Seq<Expr>, i: int, k: int)
    requires
        0 <= i <= k <= items.len(),
        ports_decoded(items.take(i)) is Err,
    ensures
        ports_decoded(items.take(k)) == ports_decoded(items.take(i)),
    decreases k - i,
{
    if k > i {
        lemma_ports_refusal_sticks(items, i, k - 1);
        assert(items.take(k).drop_last() =~= items.take(k - 1));
    }
}

/// Decodes a list of port expressions, in order.
pub fn ports_from_exprs(items: &[Expr]) -> (res: Result<Vec<PortDecl>, Error>)
    ensures
        match ports_decoded(items@) {
            Ok(v) => res matches Ok(ports) && port_values(ports@) == v,
            Err(m) => fails_with(res, m),
        },
{
    let mut ports: Vec<PortDecl> = Vec::new();
    let mut i: usize = 0;
    assert(items@.take(0) =~= Seq::<Expr>::empty());
    assert(port_values(ports@) =~= Seq::<(Seq<char>, PortMedia, PortDir, u16)>::empty());
    while i < items.len()
        invariant
            i <= items@.len(),
            ports_decoded(items@.take(i as int)) == Ok::<
                Seq<(Seq<char>, PortMedia, PortDir, u16)>,
                Seq<char>,
            >(port_values(ports@)),
        decreases items@.len() - i,
    {
        assert(items@.take(i as int + 1).drop_last() =~= items@.take(i as int));
        assert(items@.take(i as int + 1).last() == items@[i as int]);
        match port_from_expr(&items[i]) {
            Ok(p) => {
                let ghost before = ports@;
                ports.push(p);
                assert(port_values(ports@) =~= port_values(before).push(port_value(p)));
            },
            Err(err) => {
                proof {
                    lemma_ports_refusal_sticks(items@, i as int + 1, items@.len() as int);
                    assert(items@.take(items@.len() as int) =~= items@);
                }
                return Err(err);
            },
        }
        i = i + 1;
    }
    assert(items@.take(i as int) =~= items@);
    Ok(ports)
}

/// Encodes a list of port declarations, in order.
pub fn ports_to_exprs(ports: &[PortDecl]) -> (res: Vec<Expr>)
    ensures
        res@.len() == ports@.len(),
        forall|i: int| 0 <= i < ports@.len() ==> encodes_port(#[trigger] res@[i], port_value(ports@[i])),
{
    let mut res: Vec<Expr> = Vec::new();
    let mut i: usize = 0;
    while i < ports.len()
        invariant
            i <= ports@.len(),
            res@.len() == i,
            forall|j: int| 0 <= j < i ==> encodes_port(#[trigger] res@[j], port_value(ports@[j])),
        decreases ports@.len() - i,
    {
        res.push(port_to_expr(&ports[i]));
        i = i + 1;
    }
    res
}

/// A descriptor's identity, texts and ports: its value apart from its
/// parameters and latency.
pub open spec fn descriptor_head<P>(d: PluginDescriptor<P>) -> (
    PluginFormat,
    Seq<char>,
    Seq<char>,
    Seq<char>,
    Seq<char>,
    Seq<(Seq<char>, PortMedia, PortDir, u16)>,
) {
    (d.id.format, d.id.stable_id@, d.name@, d.vendor@, d.version@, port_values(d.ports@))
}

/// The identity, texts and ports a descriptor expression decodes to, read
/// in order: the tag, the format, the stable id (which must not be blank),
/// the name, vendor and version (the name must not be blank), then the
/// ports.
pub open spec fn head_decoded(e: Expr) -> Result<
    (
        PluginFormat,
        Seq<char>,
        Seq<char>,
        Seq<char>,
        Seq<char>,
        Seq<(Seq<char>, PortMedia, PortDir, u16)>,
    ),
    Seq<char>,
> {
    match map_of(e, "plugin descriptor"@) {
        Err(m) => Err(m),
        Ok(map) => match field_of(map, "tag"@) {
            Err(m) => Err(m),
            Ok(t) => if !is_field(t, "descriptor"@) {
                Err("plugin descriptor tag must be descriptor"@)
            } else {
                match field_of(map, "format"@) {
                    Err(m) => Err(m),
                    Ok(fe) => match string_of(fe, "format"@) {
                        Err(m) => Err(m),
                        Ok(ft) => match format_from_wire(ft) {
                            None => Err("unknown plugin format: "@ + ft),
                            Some(format) => match field_of(map, "stable-id"@) {
                                Err(m) => Err(m),
                                Ok(ie) => match string_of(ie, "stable-id"@) {
                                    Err(m) => Err(m),
                                    Ok(stable_id) => if is_blank_text(stable_id) {
                                        Err("plugin stable id cannot be empty"@)
                                    } else {
                                        named_head_decoded(map, format, stable_id)
                                    },
                                },
                            },
                        },
                    },
                }
            },
        },
    }
}

/// The rest of a descriptor expression, once its format and stable id are
/// read: name, vendor, version, then the ports.
pub open spec fn named_head_decoded(
    map: Seq<(Expr, Expr)>,
    format: PluginFormat,
    stable_id: Seq<char>,
) -> Result<
    (
        PluginFormat,
        Seq<char>,
        Seq<char>,
        Seq<char>,
        Seq<char>,
        Seq<(Seq<char>, PortMedia, PortDir, u16)>,
    ),
    Seq<char>,
> {
    match field_of(map, "name"@) {
        Err(m) => Err(m),
        Ok(ne) => match string_of(ne, "name"@) {
            Err(m) => Err(m),
            Ok(name) => match field_of(map, "vendor"@) {
                Err(m) => Err(m),
                Ok(ve) => match string_of(ve, "vendor"@) {
                    Err(m) => Err(m),
                    Ok(vendor) => match field_of(map, "version"@) {
                        Err(m) => Err(m),
                        Ok(we) => match string_of(we, "version"@) {
                            Err(m) => Err(m),
                            Ok(version) => if is_blank_text(name) {
                                Err("plugin name cannot be empty"@)
                            } else {
                                match field_of(map, "ports"@) {
                                    Err(m) => Err(m),
                                    Ok(pe) => match vector_of(pe, "ports"@) {
                                        Err(m) => Err(m),
                                        Ok(items) => match ports_decoded(items) {
                                            Err(m) => Err(m),
                                            Ok(ports) => Ok(
                                                (format, stable_id, name, vendor, version, ports),
                                            ),
                                        },
                                    },
                                }
                            },
                        },
                    },
                },
            },
        },
    }
}

/// The parameter expressions a descriptor expression lists.
pub open spec fn parameter_exprs_decoded(e: Expr) -> Result<Seq<Expr>, Seq<char>> {
    match map_of(e, "plugin descriptor"@) {
        Err(m) => Err(m),
        Ok(map) => match field_of(map, "parameters"@) {
            Err(m) => Err(m),
            Ok(pe) => vector_of(pe, "parameters"@),
        },
    }
}

/// The latency a descriptor expression declares.
pub open spec fn latency_decoded(e: Expr) -> Result<u32, Seq<char>> {
    match map_of(e, "plugin descriptor"@) {
        Err(m) => Err(m),
        Ok(map) => match field_of(map, "latency-frames"@) {
            Err(m) => Err(m),
            Ok(le) => u32_of(le, "latency"@),
        },
    }
}

/// `e` is the expression of a descriptor with head `h`, parameter
/// expressions `params` and latency `latency`: a map of the tag, format,
/// stable id, name, vendor, version, ports, parameters and latency, in that
/// order.
pub open spec fn encodes_descriptor(
    e: Expr,
    h: (
        PluginFormat,
        Seq<char>,
        Seq<char>,
        Seq<char>,
        Seq<char>,
        Seq<(Seq<char>, PortMedia, PortDir, u16)>,
    ),
    params: Seq<Expr>,
    latency: u32,
) -> bool {
    &&& e matches Expr::Dict(entries)
    &&& entries@.len() == 9
    &&& is_field(entries@[0].0, "tag"@) && is_field(entries@[0].1, "descriptor"@)
    &&& is_field(entries@[1].0, "format"@)
    &&& is_field(entries@[2].0, "stable-id"@)
    &&& is_field(entries@[3].0, "name"@)
    &&& is_field(entries@[4].0, "vendor"@)
    &&& is_field(entries@[5].0, "version"@)
    &&& is_field(entries@[6].0, "ports"@)
    &&& is_field(entries@[7].0, "parameters"@)
    &&& is_field(entries@[8].0, "latency-frames"@)
    &&& entries@[1].1 matches Expr::String(f) && f@ == format_wire_name(h.0)
    &&& entries@[2].1 matches Expr::String(i) && i@ == h.1
    &&& entries@[3].1 matches Expr::String(n) && n@ == h.2
    &&& entries@[4].1 matches Expr::String(v) && v@ == h.3
    &&& entries@[5].1 matches Expr::String(w) && w@ == h.4
    &&& entries@[6].1 matches Expr::Vector(ports) && ports@.len() == h.5.len() && forall|k: int|
        0 <= k < h.5.len() ==> encodes_port(#[trigger] ports@[k], h.5[k])
    &&& entries@[7].1 matches Expr::Vector(ps) && ps@ == params
    &&& entries@[8].1 matches Expr::Number(l) && symbol_value(l.domain) == (
        Some("numbers"@),
        "i64"@,
    ) && l.canonical@ == decimal_text(latency as nat)
}

/// Encodes a descriptor with the already encoded `parameters`.
pub fn descriptor_to_expr<P>(descriptor: &PluginDescriptor<P>, parameters: Vec<Expr>) -> (res: Expr)
    ensures
        encodes_descriptor(res, descriptor_head(*descriptor), parameters@, descriptor.latency_frames),
{
    let mut entries: Vec<(Expr, Expr)> = Vec::new();
    entries.push((field("tag"), field("descriptor")));
    entries.push(
        (field("format"), Expr::String(String::from_str(descriptor.id.format.as_str()))),
    );
    entries.push((field("stable-id"), Expr::String(descriptor.id.stable_id.clone())));
    entries.push((field("name"), Expr::String(descriptor.name.clone())));
    entries.push((field("vendor"), Expr::String(descriptor.vendor.clone())));
    entries.push((field("version"), Expr::String(descriptor.version.clone())));
    entries.push((field("ports"), Expr::Vector(ports_to_exprs(descriptor.ports.as_slice()))));
    entries.push((field("parameters"), Expr::Vector(parameters)));
    entries.push((field("latency-frames"), number_u32(descriptor.latency_frames)));
    Expr::Dict(entries)
}

/// Decodes a descriptor's identity, texts and ports; its parameters are
/// left empty (they are read with `descriptor_parameter_exprs`) and its
/// latency zero (read with `descriptor_latency_from_expr`).
pub fn descriptor_head_from_expr<P>(e: &Expr) -> (res: Result<PluginDescriptor<P>, Error>)
    ensures
        match head_decoded(*e) {
            Ok(h) => res matches Ok(d) && descriptor_head(d) == h && d.parameters@.len() == 0
                && d.latency_frames == 0,
            Err(m) => fails_with(res, m),
        },
{
    let map = match expr_map(e, "plugin descriptor") {
        Ok(m) => m,
        Err(err) => return Err(err),
    };
    let tag = match lookup_required(map, "tag") {
        Ok(t) => t,
        Err(err) => return Err(err),
    };
    if !key_is_field(tag, "descriptor") {
        return Err(Error::eval("plugin descriptor tag must be descriptor"));
    }
    let fe = match lookup_required(map, "format") {
        Ok(v) => v,
        Err(err) => return Err(err),
    };
    let ft = match expr_string(fe, "format") {
        Ok(t) => t,
        Err(err) => return Err(err),
    };
    let format = match plugin_format(ft) {
        Ok(f) => f,
        Err(err) => return Err(err),
    };
    let ie = match lookup_required(map, "stable-id") {
        Ok(v) => v,
        Err(err) => return Err(err),
    };
    let stable_id = match expr_string(ie, "stable-id") {
        Ok(t) => t,
        Err(err) => return Err(err),
    };
    let id = match PluginId::new(format, String::from_str(stable_id)) {
        Ok(id) => id,
        Err(err) => return Err(err),
    };
    let ne = match lookup_required(map, "name") {
        Ok(v) => v,
        Err(err) => return Err(err),
    };
    let name = match expr_string(ne, "name") {
        Ok(t) => t,
        Err(err) => return Err(err),
    };
    let ve = match lookup_required(map, "vendor") {
        Ok(v) => v,
        Err(err) => return Err(err),
    };
    let vendor = match expr_string(ve, "vendor") {
        Ok(t) => t,
        Err(err) => return Err(err),
    };
    let we = match lookup_required(map, "version") {
        Ok(v) => v,
        Err(err) => return Err(err),
    };
    let version = match expr_string(we, "version") {
        Ok(t) => t,
        Err(err) => return Err(err),
    };
    let mut descriptor: PluginDescriptor<P> = match PluginDescriptor::new(
        id,
        String::from_str(name),
        String::from_str(vendor),
        String::from_str(version),
    ) {
        Ok(d) => d,
        Err(err) => return Err(err),
    };
    let pe = match lookup_required(map, "ports") {
        Ok(v) => v,
        Err(err) => return Err(err),
    };
    let items = match expr_vector(pe, "ports") {
        Ok(v) => v,
        Err(err) => return Err(err),
    };
    descriptor.ports = match ports_from_exprs(items) {
        Ok(ports) => ports,
        Err(err) => return Err(err),
    };
    Ok(descriptor)
}

/// Reads the parameter expressions a descriptor expression lists.
pub fn descriptor_parameter_exprs<'a>(e: &'a Expr) -> (res: Result<&'a [Expr], Error>)
    ensures
        match parameter_exprs_decoded(*e) {
            Ok(items) => res matches Ok(r) && r@ == items,
            Err(m) => fails_with(res, m),
        },
{
    let map = match expr_map(e, "plugin descriptor") {
        Ok(m) => m,
        Err(err) => return Err(err),
    };
    let pe = match lookup_required(map, "parameters") {
        Ok(v) => v,
        Err(err) => return Err(err),
    };
    expr_vector(pe, "parameters")
}

/// Reads the latency a descriptor expression declares.
pub fn descriptor_latency_from_expr(e: &Expr) -> (res: Result<u32, Error>)
    ensures
        match latency_decoded(*e) {
            Ok(v) => res == Ok::<u32, Error>(v),
            Err(m) => fails_with(res, m),
        },
{
    let map = match expr_map(e, "plugin descriptor") {
        Ok(m) => m,
        Err(err) => return Err(err),
    };
    let le = match lookup_required(map, "latency-frames") {
        Ok(v) => v,
        Err(err) => return Err(err),
    };
    expr_u32(le, "latency")
}

/// A digit's text is that one digit.
proof fn lemma_digit_text(d: nat)
    requires
        d < 10,
    ensures
        digit_text(d).len() == 1,
        is_digit(digit_text(d)[0]),
        (digit_text(d)[0] as nat) - ('0' as nat) == d,
{
    assert(('0' as u8 + d) as u8 == 48 + d);
}

/// The decimal text of a number is a non-empty run of digits whose value is
/// the number.
proof fn lemma_decimal_digits(n: nat)
    ensures
        decimal_text(n).len() > 0,
        forall|i: int| 0 <= i < decimal_text(n).len() ==> is_digit(#[trigger] decimal_text(n)[i]),
        digits_value(decimal_text(n)) == n,
    decreases n,
{
    if n < 10 {
        lemma_digit_text(n);
        let s = decimal_text(n);
        assert(s == digit_text(n));
        assert(s.drop_last() =~= Seq::<char>::empty());
        assert(digits_value(s.drop_last()) == 0);
        assert(s.last() == digit_text(n)[0]);
    } else {
        lemma_decimal_digits(n / 10);
        lemma_digit_text(n % 10);
        let s = decimal_text(n);
        assert(s == decimal_text(n / 10) + digit_text(n % 10));
        assert(s.drop_last() =~= decimal_text(n / 10));
        assert(s.last() == digit_text(n % 10)[0]);
        assert forall|i: int| 0 <= i < s.len() implies is_digit(#[trigger] s[i]) by {
            if i < decimal_text(n / 10).len() {
                assert(s[i] == decimal_text(n / 10)[i]);
            } else {
                assert(s[i] == digit_text(n % 10)[0]);
            }
        }
    }
}

/// Reading back the decimal text of a `u32` gives the number.
pub proof fn lemma_decimal_parses_back(n: u32)
    ensures
        parse_u32_text(decimal_text(n as nat)) == Some(n),
{
    lemma_decimal_digits(n as nat);
    let t = decimal_text(n as nat);
    assert(is_digit(t[0]));
    assert(unsigned_digits(t) == t);
}

/// The value of the first entry keyed `name`, when that is entry `k`.
proof fn lemma_field_at(map: Seq<(Expr, Expr)>, name: Seq<char>, k: int)
    requires
        0 <= k < map.len(),
        is_field(map[k].0, name),
        forall|j: int| 0 <= j < k ==> !is_field(#[trigger] map[j].0, name),
    ensures
        field_of(map, name) == Ok::<Expr, Seq<char>>(map[k].1),
{
    lemma_first_index(map, |entry: (Expr, Expr)| is_field(entry.0, name), k);
}

/// A key is the field of at most one name.
proof fn lemma_field_names_differ(key: Expr, a: Seq<char>, b: Seq<char>)
    requires
        is_field(key, a),
        a != b,
    ensures
        !is_field(key, b),
{
}

/// Decoding the expression of a port with lanes gives the port back.
pub proof fn lemma_port_round_trip(e: Expr, p: (Seq<char>, PortMedia, PortDir, u16))
    requires
        encodes_port(e, p),
        p.3 > 0,
    ensures
        port_decoded(e) == Ok::<(Seq<char>, PortMedia, PortDir, u16), Seq<char>>(p),
{
    reveal_strlit("name");
    reveal_strlit("media");
    reveal_strlit("dir");
    reveal_strlit("channels");
    assert("name"@.len() == 4 && "media"@.len() == 5 && "dir"@.len() == 3
        && "channels"@.len() == 8);
    let entries = e->Dict_0@;
    lemma_field_names_differ(entries[0].0, "name"@, "channels"@);
    lemma_field_names_differ(entries[1].0, "media"@, "channels"@);
    lemma_field_names_differ(entries[2].0, "dir"@, "channels"@);
    lemma_field_at(entries, "channels"@, 3);
    lemma_field_at(entries, "name"@, 0);
    lemma_field_names_differ(entries[0].0, "name"@, "media"@);
    lemma_field_at(entries, "media"@, 1);
    lemma_field_names_differ(entries[0].0, "name"@, "dir"@);
    lemma_field_names_differ(entries[1].0, "media"@, "dir"@);
    lemma_field_at(entries, "dir"@, 2);
    lemma_decimal_parses_back(p.3 as u32);
    lemma_port_media_wire_round_trip(p.1);
    lemma_port_dir_wire_round_trip(p.2);
}

/// Decoding the expressions of ports with lanes gives the ports back.
pub proof fn lemma_ports_round_trip(items: Seq<Expr>, ports: Seq<(Seq<char>, PortMedia, PortDir, u16)>)
    requires
        items.len() == ports.len(),
        forall|k: int| 0 <= k < ports.len() ==> encodes_port(#[trigger] items[k], ports[k]),
        forall|k: int| 0 <= k < ports.len() ==> (#[trigger] ports[k]).3 > 0,
    ensures
        ports_decoded(items) == Ok::<Seq<(Seq<char>, PortMedia, PortDir, u16)>, Seq<char>>(ports),
    decreases items.len(),
{
    if items.len() > 0 {
        let n = items.len() - 1;
        assert(encodes_port(items[n], ports[n]) && ports[n].3 > 0);
        lemma_ports_round_trip(items.drop_last(), ports.drop_last());
        lemma_port_round_trip(items.last(), ports.last());
        assert(ports.drop_last().push(ports.last()) =~= ports);
    } else {
        assert(ports =~= Seq::<(Seq<char>, PortMedia, PortDir, u16)>::empty());
    }
}

/// A descriptor round-trips through its expression: decoding the
/// expression of a descriptor whose stable id and name are not blank and
/// whose ports all have lanes gives back its identity, texts and ports, its
/// parameter expressions and its latency.
pub proof fn lemma_descriptor_round_trip(
    e: Expr,
    h: (
        PluginFormat,
        Seq<char>,
        Seq<char>,
        Seq<char>,
        Seq<char>,
        Seq<(Seq<char>, PortMedia, PortDir, u16)>,
    ),
    params: Seq<Expr>,
    latency: u32,
)
    requires
        encodes_descriptor(e, h, params, latency),
        !is_blank_text(h.1),
        !is_blank_text(h.2),
        forall|k: int| 0 <= k < h.5.len() ==> (#[trigger] h.5[k]).3 > 0,
    ensures
        head_decoded(e) == Ok::<
            (
                PluginFormat,
                Seq<char>,
                Seq<char>,
                Seq<char>,
                Seq<char>,
                Seq<(Seq<char>, PortMedia, PortDir, u16)>,
            ),
            Seq<char>,
        >(h),
        parameter_exprs_decoded(e) == Ok::<Seq<Expr>, Seq<char>>(params),
        latency_decoded(e) == Ok::<u32, Seq<char>>(latency),
{
    reveal_strlit("tag");
    reveal_strlit("format");
    reveal_strlit("stable-id");
    reveal_strlit("name");
    reveal_strlit("vendor");
    reveal_strlit("version");
    reveal_strlit("ports");
    reveal_strlit("parameters");
    reveal_strlit("latency-frames");
    let entries = e->Dict_0@;
    let names = seq![
        "tag"@,
        "format"@,
        "stable-id"@,
        "name"@,
        "vendor"@,
        "version"@,
        "ports"@,
        "parameters"@,
        "latency-frames"@,
    ];
    assert("tag"@.len() == 3 && "format"@.len() == 6 && "stable-id"@.len() == 9
        && "name"@.len() == 4 && "vendor"@.len() == 6 && "version"@.len() == 7
        && "ports"@.len() == 5 && "parameters"@.len() == 10 && "latency-frames"@.len() == 14);
    assert(names[1][0] != names[4][0]);
    assert forall|j: int, k: int| 0 <= j < 9 && 0 <= k < 9 && j != k implies #[trigger] names[j]
        != #[trigger] names[k] by {
        if names[j] == names[k] {
            assert(names[j].len() == names[k].len());
            if (j == 1 && k == 4) || (j == 4 && k == 1) {
                assert(names[j][0] != names[k][0]);
            }
        }
    }
    assert forall|k: int| 0 <= k < 9 implies is_field(#[trigger] entries[k].0, names[k]) by {}
    assert forall|k: int, j: int| 0 <= j < k < 9 implies !is_field(
        #[trigger] entries[j].0,
        #[trigger] names[k],
    ) by {
        lemma_field_names_differ(entries[j].0, names[j], names[k]);
    }
    lemma_field_at(entries, names[0], 0);
    lemma_field_at(entries, names[1], 1);
    lemma_field_at(entries, names[2], 2);
    lemma_field_at(entries, names[3], 3);
    lemma_field_at(entries, names[4], 4);
    lemma_field_at(entries, names[5], 5);
    lemma_field_at(entries, names[6], 6);
    lemma_field_at(entries, names[7], 7);
    lemma_field_at(entries, names[8], 8);
    lemma_format_wire_round_trip(h.0);
    lemma_decimal_parses_back(latency);
    let port_items = entries[6].1->Vector_0@;
    lemma_ports_round_trip(port_items, h.5);
}

} // verus!
