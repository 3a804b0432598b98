use vstd::prelude::*;
use vstd::string::*;

verus! {

/// The width to which an address is padded, with spaces on the right, in a log prefix.
pub const PREFIX_WIDTH: usize = 21;

/// Where a node of the network stands, judged from its address.
#[derive(Clone, Copy, Debug, PartialEq, Eq, Structural)]
pub enum NodeLocation {
    Unknown,
    Local,
    UsNewYork,
    DeFrankfurt,
    NeAmsterdam,
    SgSingapore,
    CnPeking,
}

/// Fields of an address are separated by dots and colons.
pub open spec fn is_separator(c: char) -> bool {
    c == '.' || c == ':'
}

/// The fields of `s` between separators, the empty ones included: `n` separators
/// give `n + 1` fields.
pub open spec fn fields(s: Seq<char>) -> Seq<Seq<char>>
    decreases s.len(),
{
    if s.len() == 0 {
        seq![Seq::<char>::empty()]
    } else {
        let f = fields(s.drop_last());
        if is_separator(s.last()) {
            f.push(Seq::<char>::empty())
        } else {
            f.update(f.len() - 1, f.last().push(s.last()))
        }
    }
}

/// `s` followed by as many spaces as it takes to reach `width` characters.
pub open spec fn pad_right(s: Seq<char>, width: nat) -> Seq<char> {
    if s.len() < width {
        s + Seq::new((width - s.len()) as nat, |i: int| ' ')
    } else {
        s
    }
}

/// The log prefix of a node: its address padded to the prefix width, then a colon.
pub open spec fn log_prefix(addr: Seq<char>) -> Seq<char> {
    pad_right(addr, PREFIX_WIDTH as nat).push(':')
}

/// Field `k` exists and is `text`.
pub open spec fn field_is(parts: Seq<Seq<char>>, k: int, text: Seq<char>) -> bool {
    0 <= k < parts.len() && parts[k] == text
}

/// The fields start with the four given ones.
pub open spec fn starts_with4(parts: Seq<Seq<char>>, a: Seq<char>, b: Seq<char>, c: Seq<char>, d: Seq<char>) -> bool {
    field_is(parts, 0, a) && field_is(parts, 1, b) && field_is(parts, 2, c) && field_is(parts, 3, d)
}

/// The location that the fields of a log prefix name.
pub open spec fn location_of_fields(parts: Seq<Seq<char>>) -> NodeLocation {
    if field_is(parts, 0, seq!['1', '9', '2']) && field_is(parts, 1, seq!['1', '6', '8']) {
        NodeLocation::Local
    } else if starts_with4(parts, seq!['1', '4', '8'], seq!['1', '5', '3'], seq!['3', '6'], seq!['2', '2', '0']) {
        NodeLocation::UsNewYork
    } else if starts_with4(parts, seq!['1', '4', '8'], seq!['1', '5', '3'], seq!['5', '0'], seq!['1', '6', '2']) {
        NodeLocation::DeFrankfurt
    } else if starts_with4(parts, seq!['1', '4', '8'], seq!['1', '5', '3'], seq!['2', '5'], seq!['5', '0']) {
        NodeLocation::NeAmsterdam
    } else if starts_with4(parts, seq!['1', '6', '4'], seq!['5', '2'], seq!['3', '9'], seq!['1', '6', '2']) {
        NodeLocation::SgSingapore
    } else if starts_with4(parts, seq!['1', '1', '8'], seq!['1', '8', '6'], seq!['3', '9'], seq!['2', '3', '8']) {
        NodeLocation::CnPeking
    } else {
        NodeLocation::Unknown
    }
}

/// The location of the node with address `addr`.
pub open spec fn spec_node_location(addr: Seq<char>) -> NodeLocation {
    location_of_fields(fields(log_prefix(addr)))
}

/// A log prefix is the address, then spaces up to 21 characters, then a colon.
pub proof fn lemma_log_prefix_shape(addr: Seq<char>)
    ensures
        log_prefix(addr).len() == (if addr.len() < 21 { 21 } else { addr.len() }) + 1,
        log_prefix(addr).subrange(0, addr.len() as int) == addr,
        log_prefix(addr).last() == ':',
        forall|j: int| addr.len() <= j < log_prefix(addr).len() - 1 ==> log_prefix(addr)[j] == ' ',
{
    assert(log_prefix(addr).subrange(0, addr.len() as int) =~= addr);
}

/// The characters of `s` other than dots and colons.
pub open spec fn without_separators(s: Seq<char>) -> Seq<char> {
    s.filter(|c: char| c != '.' && c != ':')
}

/// How many dots and colons `s` holds.
pub open spec fn separator_count(s: Seq<char>) -> nat {
    s.filter(|c: char| c == '.' || c == ':').len()
}

/// Splitting loses and invents nothing: the fields, joined end to end, are the
/// string without its dots and colons, there is one field more than there are
/// dots and colons, and no field holds a dot or a colon.
pub proof fn lemma_fields_split_at_separators(s: Seq<char>)
    ensures
        fields(s).flatten() == without_separators(s),
        fields(s).len() == separator_count(s) + 1,
        forall|i: int, j: int| 0 <= i < fields(s).len() && 0 <= j < fields(s)[i].len()
            ==> fields(s)[i][j] != '.' && fields(s)[i][j] != ':',
    decreases s.len(),
{
    reveal(Seq::filter);
    fields(s).lemma_flatten_and_flatten_alt_are_equivalent();
    if s.len() == 0 {
        let f = fields(s);
        assert(f == seq![Seq::<char>::empty()]);
        assert(f.drop_last() =~= Seq::<Seq<char>>::empty());
        assert(f.drop_last().flatten_alt() =~= Seq::<char>::empty());
        assert(f.last() =~= Seq::<char>::empty());
        assert(f.flatten_alt() =~= Seq::<char>::empty());
        assert(without_separators(s) =~= Seq::<char>::empty());
    } else {
        let p = s.drop_last();
        let c = s.last();
        lemma_fields_split_at_separators(p);
        fields(p).lemma_flatten_and_flatten_alt_are_equivalent();
        let f = fields(p);
        if is_separator(c) {
            assert(fields(s) == f.push(Seq::<char>::empty()));
            assert(f.push(Seq::<char>::empty()).drop_last() =~= f);
            assert(fields(s).flatten_alt() =~= f.flatten_alt());
            assert(without_separators(s) == without_separators(p));
        } else {
            let g = f.update(f.len() - 1, f.last().push(c));
            assert(fields(s) == g);
            assert(g.drop_last() =~= f.drop_last());
            assert(f.flatten_alt() == f.drop_last().flatten_alt() + f.last());
            assert(g.flatten_alt() =~= f.flatten_alt().push(c));
            assert(without_separators(s) == without_separators(p).push(c));
            assert forall|i: int, j: int| 0 <= i < g.len() && 0 <= j < g[i].len()
                implies g[i][j] != '.' && g[i][j] != ':' by {
                if i < f.len() - 1 {
                    assert(g[i] == f[i]);
                } else if j < f.last().len() {
                    assert(g[i][j] == f[f.len() - 1][j]);
                }
            }
        }
    }
}

/// The decimal digits of a number below 1000, without leading zeros.
pub open spec fn decimal(n: nat) -> Seq<char>
    decreases n,
{
    let d = seq!['0', '1', '2', '3', '4', '5', '6', '7', '8', '9'][(n % 10) as int];
    if n < 10 { seq![d] } else { decimal(n / 10).push(d) }
}

/// The first field is 192 and the second 168: an address of the local network.
pub open spec fn fields_are_local(parts: Seq<Seq<char>>) -> bool {
    parts.len() > 1 && parts[0] == decimal(192) && parts[1] == decimal(168)
}

/// The first four fields are the four numbers `a.b.c.d`.
pub open spec fn fields_are_at(parts: Seq<Seq<char>>, a: nat, b: nat, c: nat, d: nat) -> bool {
    parts.len() > 3 && parts[0] == decimal(a) && parts[1] == decimal(b) && parts[2] == decimal(c)
        && parts[3] == decimal(d)
}

/// A node is placed at a named location exactly when the fields of its log prefix
/// are that location's address, all four of them (the first two for the local
/// network); no other fields name a location.
pub proof fn lemma_location_table(parts: Seq<Seq<char>>)
    ensures
        location_of_fields(parts) == NodeLocation::Local <==> fields_are_local(parts),
        location_of_fields(parts) == NodeLocation::UsNewYork <==> fields_are_at(parts, 148, 153, 36, 220),
        location_of_fields(parts) == NodeLocation::DeFrankfurt <==> fields_are_at(parts, 148, 153, 50, 162),
        location_of_fields(parts) == NodeLocation::NeAmsterdam <==> fields_are_at(parts, 148, 153, 25, 50),
        location_of_fields(parts) == NodeLocation::SgSingapore <==> fields_are_at(parts, 164, 52, 39, 162),
        location_of_fields(parts) == NodeLocation::CnPeking <==> fields_are_at(parts, 118, 186, 39, 238),
{
    reveal_with_fuel(decimal, 4);
    assert(decimal(192) == seq!['1', '9', '2']);
    assert(decimal(168) == seq!['1', '6', '8']);
    assert(decimal(148) == seq!['1', '4', '8']);
    assert(decimal(153) == seq!['1', '5', '3']);
    assert(decimal(36) == seq!['3', '6']);
    assert(decimal(220) == seq!['2', '2', '0']);
    assert(decimal(50) == seq!['5', '0']);
    assert(decimal(162) == seq!['1', '6', '2']);
    assert(decimal(25) == seq!['2', '5']);
    assert(decimal(164) == seq!['1', '6', '4']);
    assert(decimal(52) == seq!['5', '2']);
    assert(decimal(39) == seq!['3', '9']);
    assert(decimal(118) == seq!['1', '1', '8']);
    assert(decimal(186) == seq!['1', '8', '6']);
    assert(decimal(238) == seq!['2', '3', '8']);
    assert(seq!['1', '9', '2'] != seq!['1', '4', '8']);
    assert(seq!['1', '9', '2'] != seq!['1', '6', '4']);
    assert(seq!['1', '9', '2'] != seq!['1', '1', '8']);
    assert(seq!['1', '4', '8'] != seq!['1', '6', '4']);
    assert(seq!['1', '4', '8'] != seq!['1', '1', '8']);
    assert(seq!['1', '6', '4'] != seq!['1', '1', '8']);
    assert(seq!['3', '6'] != seq!['5', '0']);
    assert(seq!['3', '6'] != seq!['2', '5']);
    assert(seq!['5', '0'] != seq!['2', '5']);
}

impl NodeLocation {
    /// The label under which the location is shown.
    pub fn name(&self) -> (s: &'static str)
        ensures
            *self == NodeLocation::Unknown ==> s@ == "Node Location"@,
            *self == NodeLocation::Local ==> s@ == "LOCAL"@,
            *self == NodeLocation::UsNewYork ==> s@ == "US_NEW_YORK"@,
            *self == NodeLocation::DeFrankfurt ==> s@ == "DE_FRANKFURT"@,
            *self == NodeLocation::NeAmsterdam ==> s@ == "NE_ARMSTERDAM"@,
            *self == NodeLocation::SgSingapore ==> s@ == "SG_SINGAOPORE"@,
            *self == NodeLocation::CnPeking ==> s@ == "CN_PEKING"@,
    {
        match self {
            NodeLocation::Unknown => "Node Location",
            NodeLocation::Local => "LOCAL",
            NodeLocation::UsNewYork => "US_NEW_YORK",
            NodeLocation::DeFrankfurt => "DE_FRANKFURT",
            NodeLocation::NeAmsterdam => "NE_ARMSTERDAM",
            NodeLocation::SgSingapore => "SG_SINGAOPORE",
            NodeLocation::CnPeking => "CN_PEKING",
        }
    }
}

/// The role column of a node's sample line. Every node is labelled alike, whether
/// or not it leads.
pub fn node_role_label(is_leader: bool) -> (s: &'static str)
    ensures
        s@ == "Node's Roles"@,
{
    "Node's Roles"
}

/// Whether `field` holds exactly `text`.
fn field_eq(field: &Vec<char>, text: &[char]) -> (r: bool)
    ensures
        r == (field@ == text@),
{
    if field.len() != text.len() {
        return false;
    }
    let mut i: usize = 0;
    while i < field.len()
        invariant
            field.len() == text@.len(),
            i <= field.len(),
            forall|j: int| 0 <= j < i ==> field@[j] == text@[j],
        decreases field.len() - i,
    {
        if field[i] != text[i] {
            return false;
        }
        i += 1;
    }
    assert(field@ =~= text@);
    true
}

/// The characters of the log prefix of `addr`.
fn log_prefix_chars(addr: &str) -> (v: Vec<char>)
    ensures
        v@ == log_prefix(addr@),
{
    let n = addr.unicode_len();
    let mut v: Vec<char> = Vec::new();
    let mut i: usize = 0;
    while i < n
        invariant
            n == addr@.len(),
            i <= n,
            v@ == addr@.take(i as int),
        decreases n - i,
    {
        let c = addr.get_char(i);
        v.push(c);
        i += 1;
        assert(v@ =~= addr@.take(i as int));
    }
    assert(addr@.take(n as int) =~= addr@);
    let ghost base = v@;
    while v.len() < PREFIX_WIDTH
        invariant
            v@.len() <= PREFIX_WIDTH || v@ == base,
            v@.len() >= base.len(),
            v@.subrange(0, base.len() as int) == base,
            forall|j: int| base.len() <= j < v@.len() ==> v@[j] == ' ',
        decreases PREFIX_WIDTH - v.len(),
    {
        v.push(' ');
    }
    assert(v@ =~= pad_right(base, PREFIX_WIDTH as nat));
    v.push(':');
    v
}

/// The fields of `s` between separators.
fn split_fields(s: &Vec<char>) -> (parts: Vec<Vec<char>>)
    ensures
        parts@.map_values(|f: Vec<char>| f@) == fields(s@),
{
    let mut done: Vec<Vec<char>> = Vec::new();
    let mut cur: Vec<char> = Vec::new();
    let mut i: usize = 0;
    assert(s@.take(0) =~= Seq::<char>::empty());
    assert(done@.map_values(|f: Vec<char>| f@).push(cur@) =~= fields(s@.take(0)));
    while i < s.len()
        invariant
            i <= s.len(),
            done@.map_values(|f: Vec<char>| f@).push(cur@) == fields(s@.take(i as int)),
        decreases s.len() - i,
    {
        let c = s[i];
        let ghost before = s@.take(i as int);
        assert(s@.take(i + 1).drop_last() =~= before);
        assert(s@.take(i + 1).last() == c);
        if c == '.' || c == ':' {
            let mut finished: Vec<char> = Vec::new();
            std::mem::swap(&mut finished, &mut cur);
            done.push(finished);
            assert(done@.map_values(|f: Vec<char>| f@).push(cur@) =~= fields(before).push(Seq::<char>::empty()));
        } else {
            cur.push(c);
            let ghost f = fields(before);
            assert(done@.map_values(|f: Vec<char>| f@).push(cur@) =~= f.update(f.len() - 1, f.last().push(c)));
        }
        i += 1;
    }
    assert(s@.take(s.len() as int) =~= s@);
    done.push(cur);
    assert(done@.map_values(|f: Vec<char>| f@) =~= fields(s@));
    done
}

/// Whether field `k` of `parts` exists and holds exactly `text`.
fn part_is(parts: &Vec<Vec<char>>, k: usize, text: &[char]) -> (r: bool)
    ensures
        r == field_is(parts@.map_values(|f: Vec<char>| f@), k as int, text@),
{
    if k < parts.len() {
        field_eq(&parts[k], text)
    } else {
        false
    }
}

/// Where the node with address `addr` stands, judged from the fields of its log prefix.
pub fn node_location(addr: &str) -> (loc: NodeLocation)
    ensures
        loc == spec_node_location(addr@),
        loc == NodeLocation::Local <==> fields_are_local(fields(log_prefix(addr@))),
        loc == NodeLocation::UsNewYork <==> fields_are_at(fields(log_prefix(addr@)), 148, 153, 36, 220),
        loc == NodeLocation::DeFrankfurt <==> fields_are_at(fields(log_prefix(addr@)), 148, 153, 50, 162),
        loc == NodeLocation::NeAmsterdam <==> fields_are_at(fields(log_prefix(addr@)), 148, 153, 25, 50),
        loc == NodeLocation::SgSingapore <==> fields_are_at(fields(log_prefix(addr@)), 164, 52, 39, 162),
        loc == NodeLocation::CnPeking <==> fields_are_at(fields(log_prefix(addr@)), 118, 186, 39, 238),
{
    proof {
        lemma_location_table(fields(log_prefix(addr@)));
    }
    let prefix = log_prefix_chars(addr);
    let parts = split_fields(&prefix);
    if part_is(&parts, 0, &['1', '9', '2']) && part_is(&parts, 1, &['1', '6', '8']) {
        NodeLocation::Local
    } else if part_is(&parts, 0, &['1', '4', '8']) && part_is(&parts, 1, &['1', '5', '3'])
        && part_is(&parts, 2, &['3', '6']) && part_is(&parts, 3, &['2', '2', '0']) {
        NodeLocation::UsNewYork
    } else if part_is(&parts, 0, &['1', '4', '8']) && part_is(&parts, 1, &['1', '5', '3'])
        && part_is(&parts, 2, &['5', '0']) && part_is(&parts, 3, &['1', '6', '2']) {
        NodeLocation::DeFrankfurt
    } else if part_is(&parts, 0, &['1', '4', '8']) && part_is(&parts, 1, &['1', '5', '3'])
        && part_is(&parts, 2, &['2', '5']) && part_is(&parts, 3, &['5', '0']) {
        NodeLocation::NeAmsterdam
    } else if part_is(&parts, 0, &['1', '6', '4']) && part_is(&parts, 1, &['5', '2'])
        && part_is(&parts, 2, &['3', '9']) && part_is(&parts, 3, &['1', '6', '2']) {
        NodeLocation::SgSingapore
    } else if part_is(&parts, 0, &['1', '1', '8']) && part_is(&parts, 1, &['1', '8', '6'])
        && part_is(&parts, 2, &['3', '9']) && part_is(&parts, 3, &['2', '3', '8']) {
        NodeLocation::CnPeking
    } else {
        NodeLocation::Unknown
    }
}

} // verus!
