//! What is said to, and read from, the system's network tools: the arguments
//! of `ping` and `ip route replace`, and what their output means.

use crate::errors::FailoverError;
use crate::text::{
    all_digits, chars_of, contains, decimal_string, decimal_text, digit_value, digits_value, field,
    find, find_char, find_last, index_of, is_all_digits, last_match, line_spans, lines,
    matches_here, parse_digits, same_text, span_texts, spans_within, split, starts_with,
    substring, text_of, texts, trim, trim_span, word_spans, words, Span,
};
use vstd::prelude::*;
use vstd::slice::slice_subrange;
use vstd::string::StringExecFns;

verus! {

/// How the run of a command ended.
#[derive(Clone, Copy, Debug, PartialEq, Eq, Structural)]
pub enum RunStatus {
    /// The command could not be started.
    NotStarted,
    /// The command ran and reported failure.
    Failed,
    /// The command ran and reported success.
    Succeeded,
}

impl RunStatus {
    /// The command ran and reported success.
    pub open spec fn spec_succeeded(self) -> bool {
        self == RunStatus::Succeeded
    }

    /// Whether the command ran and reported success.
    #[verifier::when_used_as_spec(spec_succeeded)]
    pub fn succeeded(self) -> (r: bool)
        ensures
            r == self.spec_succeeded(),
    {
        match self {
            RunStatus::Succeeded => true,
            _ => false,
        }
    }
}

/// What one probe of a target over one interface found.
///
/// `latency_us` is the mean round-trip time in microseconds. It is 0 where the
/// target was not reached or no time could be read: 0 on a reached target
/// means that the latency is not known, never that the path costs nothing.
#[derive(Clone, Copy, Debug, PartialEq, Eq)]
pub struct ProbeOutcome {
    pub reachable: bool,
    pub latency_us: u64,
}

/// The arguments of `ping` that probe `target` over `iface`, `count` times,
/// waiting `timeout` seconds for each answer.
pub open spec fn ping_command(iface: Seq<char>, target: Seq<char>, count: u8, timeout: u8) -> Seq<
    Seq<char>,
> {
    seq![
        "-I"@,
        iface,
        "-c"@,
        decimal_text(count as nat),
        "-W"@,
        decimal_text(timeout as nat),
        target,
    ]
}

/// The arguments of `ping` that probe `target` over `iface`.
pub fn ping_args(iface: &str, target: &str, count: u8, timeout: u8) -> (r: Vec<String>)
    ensures
        texts(r@) == ping_command(iface@, target@, count, timeout),
{
    let mut args: Vec<String> = Vec::new();
    args.push("-I".to_owned());
    args.push(iface.to_owned());
    args.push("-c".to_owned());
    args.push(decimal_string(count as u64));
    args.push("-W".to_owned());
    args.push(decimal_string(timeout as u64));
    args.push(target.to_owned());
    assert(texts(args@) =~= ping_command(iface@, target@, count, timeout));
    args
}

/// The digit of `frac` at index `i`, or 0 where `frac` ends before it.
pub open spec fn digit_or_zero(frac: Seq<char>, i: int) -> nat {
    if 0 <= i < frac.len() {
        digit_value(frac[i])
    } else {
        0
    }
}

/// The first three digits after the decimal point, read as thousandths.
pub open spec fn thousandths(frac: Seq<char>) -> nat {
    digit_or_zero(frac, 0) * 100 + digit_or_zero(frac, 1) * 10 + digit_or_zero(frac, 2)
}

/// The microseconds that a count of milliseconds, written in decimal, stands
/// for.
///
/// The text is one or more digits, and then, if anything follows, a point and
/// any number of digits. Digits after the third behind the point are dropped.
/// A text of another form, or a number of microseconds that does not fit in 64
/// bits, stands for nothing.
pub open spec fn millis_as_micros(s: Seq<char>) -> Option<u64> {
    let dot = index_of(s, '.', 0);
    let whole = s.subrange(0, dot);
    let frac = if dot < s.len() {
        s.subrange(dot + 1, s.len() as int)
    } else {
        Seq::empty()
    };
    let micros = digits_value(whole) * 1000 + thousandths(frac);
    if whole.len() > 0 && all_digits(whole) && all_digits(frac) && micros <= u64::MAX {
        Some(micros as u64)
    } else {
        None
    }
}

/// Reads a count of milliseconds, written in decimal, as microseconds.
pub fn parse_millis(s: &[char]) -> (r: Option<u64>)
    ensures
        r == millis_as_micros(s@),
{
    let dot = find_char(s, '.', 0);
    if dot == 0 {
        return None;
    }
    let whole = slice_subrange(s, 0, dot);
    let frac = if dot < s.len() {
        slice_subrange(s, dot + 1, s.len())
    } else {
        slice_subrange(s, dot, dot)
    };
    assert(frac@ =~= if dot < s@.len() {
        s@.subrange(dot + 1, s@.len() as int)
    } else {
        Seq::empty()
    });
    if !is_all_digits(frac) {
        return None;
    }
    let mut part: u64 = 0;
    if frac.len() > 0 {
        part = part + (frac[0] as u32 - 0x30) as u64 * 100;
    }
    if frac.len() > 1 {
        part = part + (frac[1] as u32 - 0x30) as u64 * 10;
    }
    if frac.len() > 2 {
        part = part + (frac[2] as u32 - 0x30) as u64;
    }
    assert(part == thousandths(frac@));
    match parse_digits(whole) {
        None => None,
        Some(n) => {
            if n > (u64::MAX - part) / 1000 {
                None
            } else {
                Some(n * 1000 + part)
            }
        },
    }
}

/// The mean round-trip time that one line of `ping`'s output states, in
/// microseconds.
///
/// Such a line holds the words `min/avg/max`; its numbers follow the first
/// `=`, up to a second one if there is one, with `/` between them, and the
/// mean is the second of them.
pub open spec fn line_latency(line: Seq<char>) -> Option<u64> {
    if contains(line, "min/avg/max"@) && split(line, '=').len() >= 2 && split(
        split(line, '=')[1],
        '/',
    ).len() >= 2 {
        millis_as_micros(trim(split(split(line, '=')[1], '/')[1]))
    } else {
        None
    }
}

/// Reads the mean round-trip time from one line of `ping`'s output.
pub fn parse_latency_line(line: &[char]) -> (r: Option<u64>)
    ensures
        r == line_latency(line@),
{
    let marker = chars_of("min/avg/max");
    if find(line, marker.as_slice()).is_none() {
        return None;
    }
    match field(line, '=', 1) {
        None => None,
        Some(stats) => {
            let numbers = slice_subrange(line, stats.start, stats.end);
            match field(numbers, '/', 1) {
                None => None,
                Some(mean) => {
                    let padded = slice_subrange(numbers, mean.start, mean.end);
                    let bare = trim_span(padded);
                    parse_millis(slice_subrange(padded, bare.start, bare.end))
                },
            }
        },
    }
}

/// What the first of `ls` that states a mean round-trip time states.
pub open spec fn first_latency(ls: Seq<Seq<char>>) -> Option<u64>
    decreases ls.len(),
{
    if ls.len() == 0 {
        None
    } else if line_latency(ls[0]) is Some {
        line_latency(ls[0])
    } else {
        first_latency(ls.drop_first())
    }
}

/// The mean round-trip time that `ping`'s output states, in microseconds.
pub open spec fn output_latency(output: Seq<char>) -> Option<u64> {
    first_latency(lines(output))
}

/// Reads the mean round-trip time, in microseconds, from the output of
/// `ping`: from the first line that states one.
pub fn parse_ping_latency(output: &str) -> (r: Option<u64>)
    ensures
        r == output_latency(output@),
{
    let chars = chars_of(output);
    let s = chars.as_slice();
    let spans = line_spans(s);
    let mut i: usize = 0;
    assert(lines(s@).skip(0) =~= lines(s@));
    while i < spans.len()
        invariant
            i <= spans.len(),
            s@ == output@,
            spans_within(s@, spans@),
            span_texts(s@, spans@) == lines(s@),
            first_latency(lines(s@).skip(i as int)) == output_latency(output@),
        decreases spans.len() - i,
    {
        let span = spans[i];
        assert(span.within(s@));
        let found = parse_latency_line(slice_subrange(s, span.start, span.end));
        proof {
            let rest = lines(s@).skip(i as int);
            assert(rest[0] == span_texts(s@, spans@)[i as int]);
            assert(rest.drop_first() =~= lines(s@).skip(i + 1));
        }
        if found.is_some() {
            return found;
        }
        i += 1;
    }
    None
}

/// What a run of `ping` found: nothing where it could not be started or
/// failed; where it succeeded, the mean round-trip time that its output
/// states, or 0 where it states none.
pub open spec fn probe_outcome(status: RunStatus, output: Seq<char>) -> ProbeOutcome {
    if !status.succeeded() {
        ProbeOutcome { reachable: false, latency_us: 0 }
    } else {
        ProbeOutcome {
            reachable: true,
            latency_us: match output_latency(output) {
                Some(us) => us,
                None => 0,
            },
        }
    }
}

/// What a run of `ping` found, from how it ended and what it printed.
pub fn read_probe(status: RunStatus, output: &str) -> (r: ProbeOutcome)
    ensures
        r == probe_outcome(status, output@),
{
    if !status.succeeded() {
        ProbeOutcome { reachable: false, latency_us: 0 }
    } else {
        match parse_ping_latency(output) {
            Some(us) => ProbeOutcome { reachable: true, latency_us: us },
            None => ProbeOutcome { reachable: true, latency_us: 0 },
        }
    }
}

/// What is looked for in a line that `ip route` prints.
#[derive(Clone, Copy, Debug, PartialEq, Eq, Structural)]
pub enum RouteField {
    /// The gateway of a default route.
    DefaultGateway,
    /// The gateway of any route.
    Gateway,
    /// The interface that the route leaves by.
    Device,
}

/// The word that follows the first `key` at or after index `from`.
pub open spec fn word_after(ws: Seq<Seq<char>>, key: Seq<char>, from: int) -> Option<Seq<char>>
    decreases ws.len() - from,
{
    if from < 0 || from + 1 >= ws.len() {
        None
    } else if ws[from] == key {
        Some(ws[from + 1])
    } else {
        word_after(ws, key, from + 1)
    }
}

/// What one line that `ip route` prints says.
///
/// The gateway of a default route is the third word of a line that begins
/// with `default via `. The gateway of any route is the word after the first
/// word `via` that has a word after it, in a line that holds ` via `. The
/// interface is the word after the first word `dev` that has a word after it.
pub open spec fn line_field(line: Seq<char>, what: RouteField) -> Option<Seq<char>> {
    match what {
        RouteField::DefaultGateway => if starts_with(line, "default via "@) && words(line).len()
            >= 3 {
            Some(words(line)[2])
        } else {
            None
        },
        RouteField::Gateway => if contains(line, " via "@) {
            word_after(words(line), "via"@, 0)
        } else {
            None
        },
        RouteField::Device => word_after(words(line), "dev"@, 0),
    }
}

/// Where the word stands that follows the first `key` among the words `ws`
/// of `line`.
fn span_after(line: &[char], ws: &Vec<Span>, key: &str) -> (r: Option<Span>)
    requires
        spans_within(line@, ws@),
        span_texts(line@, ws@) == words(line@),
    ensures
        r is Some <==> word_after(words(line@), key@, 0) is Some,
        r matches Some(span) ==> span.within(line@) && Some(span.of(line@)) == word_after(
            words(line@),
            key@,
            0,
        ),
{
    let key_chars = chars_of(key);
    let mut i: usize = 0;
    while i < ws.len() && i + 1 < ws.len()
        invariant
            i <= ws.len(),
            spans_within(line@, ws@),
            span_texts(line@, ws@) == words(line@),
            key_chars@ == key@,
            word_after(words(line@), key@, 0) == word_after(words(line@), key@, i as int),
        decreases ws.len() - i,
    {
        let w = ws[i];
        assert(w.within(line@));
        assert(span_texts(line@, ws@)[i as int] == w.of(line@));
        if same_text(slice_subrange(line, w.start, w.end), key_chars.as_slice()) {
            assert(ws@[i + 1].within(line@));
            assert(span_texts(line@, ws@)[i + 1] == ws@[i + 1].of(line@));
            return Some(ws[i + 1]);
        }
        i += 1;
    }
    None
}

/// Where in `line` the word stands that is looked for.
pub fn route_field_span(line: &[char], what: RouteField) -> (r: Option<Span>)
    ensures
        r is Some <==> line_field(line@, what) is Some,
        r matches Some(span) ==> span.within(line@) && Some(span.of(line@)) == line_field(
            line@,
            what,
        ),
{
    match what {
        RouteField::DefaultGateway => {
            let prefix = chars_of("default via ");
            if !matches_here(line, prefix.as_slice(), 0) {
                return None;
            }
            let ws = word_spans(line);
            if ws.len() >= 3 {
                assert(ws@[2].within(line@));
                assert(span_texts(line@, ws@)[2] == ws@[2].of(line@));
                Some(ws[2])
            } else {
                None
            }
        },
        RouteField::Gateway => {
            let needle = chars_of(" via ");
            if find(line, needle.as_slice()).is_none() {
                return None;
            }
            let ws = word_spans(line);
            span_after(line, &ws, "via")
        },
        RouteField::Device => {
            let ws = word_spans(line);
            span_after(line, &ws, "dev")
        },
    }
}

/// What the first of `ls` that says it says.
pub open spec fn first_field(ls: Seq<Seq<char>>, what: RouteField) -> Option<Seq<char>>
    decreases ls.len(),
{
    if ls.len() == 0 {
        None
    } else if line_field(ls[0], what) is Some {
        line_field(ls[0], what)
    } else {
        first_field(ls.drop_first(), what)
    }
}

/// What the first of the lines that says it says.
fn find_field(output: &str, s: &[char], spans: &Vec<Span>, what: RouteField) -> (r: Option<String>)
    requires
        s@ == output@,
        spans_within(s@, spans@),
        span_texts(s@, spans@) == lines(s@),
    ensures
        text_of(r) == first_field(lines(output@), what),
{
    let mut i: usize = 0;
    assert(lines(s@).skip(0) =~= lines(s@));
    while i < spans.len()
        invariant
            i <= spans.len(),
            s@ == output@,
            spans_within(s@, spans@),
            span_texts(s@, spans@) == lines(s@),
            first_field(lines(s@).skip(i as int), what) == first_field(lines(output@), what),
        decreases spans.len() - i,
    {
        let span = spans[i];
        assert(span.within(s@));
        let line = slice_subrange(s, span.start, span.end);
        let found = route_field_span(line, what);
        proof {
            let rest = lines(s@).skip(i as int);
            assert(rest[0] == span_texts(s@, spans@)[i as int]);
            assert(rest.drop_first() =~= lines(s@).skip(i + 1));
        }
        match found {
            Some(word) => {
                assert(word.of(line@) =~= output@.subrange(
                    span.start + word.start,
                    span.start + word.end,
                ));
                return Some(substring(output, span.start + word.start, span.start + word.end));
            },
            None => {},
        }
        i += 1;
    }
    None
}

/// The gateway of an interface, from what `ip route show dev` prints for it:
/// that of the first default route, and where there is none, that of the
/// first route through any gateway. A link without gateway has none.
pub open spec fn route_gateway(output: Seq<char>) -> Option<Seq<char>> {
    if first_field(lines(output), RouteField::DefaultGateway) is Some {
        first_field(lines(output), RouteField::DefaultGateway)
    } else {
        first_field(lines(output), RouteField::Gateway)
    }
}

/// Reads the gateway of an interface from what `ip route show dev` prints
/// for it.
pub fn parse_gateway(output: &str) -> (r: Option<String>)
    ensures
        text_of(r) == route_gateway(output@),
{
    let chars = chars_of(output);
    let spans = line_spans(chars.as_slice());
    match find_field(output, chars.as_slice(), &spans, RouteField::DefaultGateway) {
        Some(g) => Some(g),
        None => find_field(output, chars.as_slice(), &spans, RouteField::Gateway),
    }
}

/// The gateway that a lookup with `ip route show dev` found: the one that its
/// output names, where the command succeeded. A lookup that failed, or could
/// not be made, found none; that is no error.
pub open spec fn gateway_found(status: RunStatus, output: Seq<char>) -> Option<Seq<char>> {
    if status.succeeded() {
        route_gateway(output)
    } else {
        None
    }
}

/// The gateway of an interface, from how `ip route show dev` ended and what
/// it printed.
pub fn read_gateway(status: RunStatus, output: &str) -> (r: Option<String>)
    ensures
        text_of(r) == gateway_found(status, output@),
{
    if status.succeeded() {
        parse_gateway(output)
    } else {
        None
    }
}

/// The interface by which a destination is reached now, from what
/// `ip route get` prints for it: the one that the first line with an
/// interface names. No route gives none.
pub open spec fn route_interface(output: Seq<char>) -> Option<Seq<char>> {
    first_field(lines(output), RouteField::Device)
}

/// Reads the interface by which a destination is reached now from what
/// `ip route get` prints for it.
pub fn parse_route_interface(output: &str) -> (r: Option<String>)
    ensures
        text_of(r) == route_interface(output@),
{
    let chars = chars_of(output);
    let spans = line_spans(chars.as_slice());
    find_field(output, chars.as_slice(), &spans, RouteField::Device)
}

/// The interface that a lookup with `ip route get` found: the one that its
/// output names, where the command succeeded. A lookup that failed, or could
/// not be made, found none; that is no error.
pub open spec fn interface_found(status: RunStatus, output: Seq<char>) -> Option<Seq<char>> {
    if status.succeeded() {
        route_interface(output)
    } else {
        None
    }
}

/// The interface by which a destination is reached now, from how
/// `ip route get` ended and what it printed.
pub fn read_route_interface(status: RunStatus, output: &str) -> (r: Option<String>)
    ensures
        text_of(r) == interface_found(status, output@),
{
    if status.succeeded() {
        parse_route_interface(output)
    } else {
        None
    }
}

/// The interface that one line of `ip link show` names.
///
/// The line has to hold `: ` and no `@`. The name is the second word of what
/// stands before the last `: ` of the line.
pub open spec fn line_interface(line: Seq<char>) -> Option<Seq<char>> {
    let head = line.subrange(0, last_match(line, ": "@, line.len() as int));
    if contains(line, ": "@) && !contains(line, "@"@) && words(head).len() >= 2 {
        Some(words(head)[1])
    } else {
        None
    }
}

/// Where in `line` the interface stands that the line names.
pub fn interface_span(line: &[char]) -> (r: Option<Span>)
    ensures
        r is Some <==> line_interface(line@) is Some,
        r matches Some(span) ==> span.within(line@) && span.of(line@) == line_interface(line@)->0,
{
    let colon = chars_of(": ");
    let at = chars_of("@");
    match find_last(line, colon.as_slice()) {
        None => None,
        Some(cut) => {
            if find(line, at.as_slice()).is_some() {
                return None;
            }
            let head = slice_subrange(line, 0, cut);
            let ws = word_spans(head);
            if ws.len() >= 2 {
                let w = ws[1];
                assert(w.within(head@));
                assert(span_texts(head@, ws@)[1] == w.of(head@));
                assert(w.of(head@) =~= w.of(line@));
                Some(w)
            } else {
                None
            }
        },
    }
}

/// The interfaces that the lines `ls` name, in order.
pub open spec fn interfaces_of(ls: Seq<Seq<char>>) -> Seq<Seq<char>>
    decreases ls.len(),
{
    if ls.len() == 0 {
        Seq::empty()
    } else if line_interface(ls[0]) is Some {
        seq![line_interface(ls[0])->0] + interfaces_of(ls.drop_first())
    } else {
        interfaces_of(ls.drop_first())
    }
}

/// The interfaces that the output of `ip link show` names, in order.
pub open spec fn listed_interfaces(output: Seq<char>) -> Seq<Seq<char>> {
    interfaces_of(lines(output))
}

/// Reads the names of the interfaces from what `ip link show` prints.
pub fn parse_interfaces(output: &str) -> (r: Vec<String>)
    ensures
        texts(r@) == listed_interfaces(output@),
{
    let chars = chars_of(output);
    let s = chars.as_slice();
    let spans = line_spans(s);
    let mut names: Vec<String> = Vec::new();
    let mut i: usize = 0;
    assert(texts(names@) + interfaces_of(lines(s@).skip(0)) =~= listed_interfaces(output@)) by {
        assert(lines(s@).skip(0) =~= lines(s@));
    }
    while i < spans.len()
        invariant
            i <= spans.len(),
            s@ == output@,
            spans_within(s@, spans@),
            span_texts(s@, spans@) == lines(s@),
            texts(names@) + interfaces_of(lines(s@).skip(i as int)) == listed_interfaces(
                output@,
            ),
        decreases spans.len() - i,
    {
        let span = spans[i];
        assert(span.within(s@));
        let line = slice_subrange(s, span.start, span.end);
        let found = interface_span(line);
        proof {
            let rest = lines(s@).skip(i as int);
            assert(rest[0] == span_texts(s@, spans@)[i as int]);
            assert(rest.drop_first() =~= lines(s@).skip(i + 1));
        }
        match found {
            Some(word) => {
                assert(word.of(line@) =~= output@.subrange(
                    span.start + word.start,
                    span.start + word.end,
                ));
                let ghost before = names@;
                names.push(substring(output, span.start + word.start, span.start + word.end));
                assert(texts(names@) =~= texts(before) + seq![word.of(line@)]);
                assert(texts(names@) + interfaces_of(lines(s@).skip(i + 1)) =~= texts(before)
                    + interfaces_of(lines(s@).skip(i as int)));
            },
            None => {},
        }
        i += 1;
    }
    assert(texts(names@) + interfaces_of(lines(s@).skip(i as int)) =~= texts(names@));
    names
}

/// The interfaces that a run of `ip link show` found: those that its output
/// names, whether or not the command reported success, and none where it
/// could not be started.
pub open spec fn interfaces_found(status: RunStatus, output: Seq<char>) -> Seq<Seq<char>> {
    if status == RunStatus::NotStarted {
        Seq::empty()
    } else {
        listed_interfaces(output)
    }
}

/// The names of the interfaces, from how `ip link show` ended and what it
/// printed.
pub fn read_interfaces(status: RunStatus, output: &str) -> (r: Vec<String>)
    ensures
        texts(r@) == interfaces_found(status, output@),
{
    match status {
        RunStatus::NotStarted => {
            let none: Vec<String> = Vec::new();
            assert(texts(none@) =~= Seq::<Seq<char>>::empty());
            none
        },
        _ => parse_interfaces(output),
    }
}

/// Where a route leads: to the tunnel's peer alone, or everywhere.
#[derive(Debug, PartialEq, Eq)]
pub enum RouteTarget {
    /// The address of the peer.
    Peer(String),
    /// The default route.
    Default,
}

impl Clone for RouteTarget {
    fn clone(&self) -> (r: Self)
        ensures
            r == *self,
    {
        match self {
            RouteTarget::Peer(address) => RouteTarget::Peer(address.clone()),
            RouteTarget::Default => RouteTarget::Default,
        }
    }
}

impl RouteTarget {
    /// The destination as `ip route` takes it.
    pub open spec fn destination(self) -> Seq<char> {
        match self {
            RouteTarget::Peer(address) => address@,
            RouteTarget::Default => "default"@,
        }
    }
}

/// The arguments of `ip` that put the route to `destination` on `iface`,
/// through `gateway` if there is one, with metric 100. The route is replaced,
/// so that giving the command twice leaves the same table as giving it once.
pub open spec fn route_command(
    destination: Seq<char>,
    iface: Seq<char>,
    gateway: Option<Seq<char>>,
) -> Seq<Seq<char>> {
    seq!["route"@, "replace"@, destination] + (match gateway {
        Some(address) => seq!["via"@, address],
        None => Seq::empty(),
    }) + seq!["dev"@, iface, "metric"@, "100"@]
}

/// The arguments of `ip` that put the route to `target` on `iface`.
pub fn route_replace_args(target: &RouteTarget, iface: &str, gateway: Option<&String>) -> (r: Vec<
    String,
>)
    ensures
        texts(r@) == route_command(
            target.destination(),
            iface@,
            match gateway {
                Some(address) => Some(address@),
                None => None,
            },
        ),
{
    let mut args: Vec<String> = Vec::new();
    args.push("route".to_owned());
    args.push("replace".to_owned());
    match target {
        RouteTarget::Peer(address) => args.push(address.clone()),
        RouteTarget::Default => args.push("default".to_owned()),
    }
    match gateway {
        Some(address) => {
            args.push("via".to_owned());
            args.push(address.clone());
        },
        None => {},
    }
    args.push("dev".to_owned());
    args.push(iface.to_owned());
    args.push("metric".to_owned());
    args.push("100".to_owned());
    assert(texts(args@) =~= route_command(
        target.destination(),
        iface@,
        match gateway {
            Some(address) => Some(address@),
            None => None,
        },
    ));
    args
}

/// What is said of a route that `ip` did not set: which kind of route, and
/// what `ip` printed as its error.
pub open spec fn route_failure_text(target: RouteTarget, stderr: Seq<char>) -> Seq<char> {
    match target {
        RouteTarget::Peer(_) => "ip route failed: "@ + stderr,
        RouteTarget::Default => "ip route default failed: "@ + stderr,
    }
}

/// The error for a route that `ip` did not set.
pub fn route_failure(target: &RouteTarget, stderr: &str) -> (e: FailoverError)
    ensures
        e matches FailoverError::RouteModificationFailed(m) && m@ == route_failure_text(
            *target,
            stderr@,
        ),
{
    match target {
        RouteTarget::Peer(_) => FailoverError::RouteModificationFailed(
            "ip route failed: ".to_owned().concat(stderr),
        ),
        RouteTarget::Default => FailoverError::RouteModificationFailed(
            "ip route default failed: ".to_owned().concat(stderr),
        ),
    }
}

/// Whether the route was set, from how `ip route replace` ended and what it
/// printed as its error. A command that failed gives
/// `RouteModificationFailed` with what `route_failure_text` says, one that
/// could not be started gives `CommandExecution`.
pub fn route_result(target: &RouteTarget, status: RunStatus, stderr: &str) -> (r: Result<
    (),
    FailoverError,
>)
    ensures
        r is Ok <==> status == RunStatus::Succeeded,
        status == RunStatus::Failed ==> (r matches Err(FailoverError::RouteModificationFailed(m))
            && m@ == route_failure_text(*target, stderr@)),
        status == RunStatus::NotStarted ==> (r matches Err(FailoverError::CommandExecution(m))
            && m@ == "Failed to execute ip route command"@),
{
    match status {
        RunStatus::Succeeded => Ok(()),
        RunStatus::Failed => Err(route_failure(target, stderr)),
        RunStatus::NotStarted => Err(
            FailoverError::CommandExecution("Failed to execute ip route command".to_owned()),
        ),
    }
}

} // verus!
