use crate::address::address_chars;
use crate::alias::AliasTable;
use crate::fields::{field_set, field_set_spec, tag_name, Field, FieldValue, TagKey};
use crate::measurement::Measurement;
use vstd::prelude::*;

verus! {

/// A timestamped, tagged, multi-field point handed to the time-series sink.
#[derive(Clone, Debug)]
pub struct DataPoint {
    pub measurement: String,
    pub tag_set: Vec<(TagKey, String)>,
    pub field_set: Vec<(Field, FieldValue)>,
    /// Nanoseconds since the Unix epoch at which the point was built.
    pub timestamp_ns: u64,
}

/// Text of the `mac` tag of a measurement.
pub open spec fn mac_text(m: Measurement, keep_colons: bool) -> Seq<char> {
    address_chars(m.address.bytes@, keep_colons)
}

/// The tag set of a measurement: its normalized address, and the label of the
/// last alias whose address, normalized the same way, equals that text.
pub open spec fn tag_set_spec(aliases: AliasTable, m: Measurement, keep_colons: bool) -> Seq<
    (TagKey, Seq<char>),
> {
    seq![
        (TagKey::Mac, mac_text(m, keep_colons)),
        (TagKey::Name, aliases.resolve_spec(mac_text(m, keep_colons), keep_colons)),
    ]
}

/// A tag set with its texts as character sequences.
pub open spec fn tags_view(tags: Seq<(TagKey, String)>) -> Seq<(TagKey, Seq<char>)> {
    tags.map_values(|t: (TagKey, String)| (t.0, t.1@))
}

/// Builds the tag set: `mac` is the device address, with its colons unless
/// they are stripped, and `name` the alias of that text, alias addresses being
/// normalized in the same way.
pub fn tag_set(aliases: &AliasTable, m: &Measurement, keep_colons: bool) -> (r: Vec<
    (TagKey, String),
>)
    ensures
        tags_view(r@) == tag_set_spec(*aliases, *m, keep_colons),
{
    let address = m.address.normalized(keep_colons);
    let name = aliases.resolve(address.as_str(), keep_colons);
    let mut tags: Vec<(TagKey, String)> = Vec::new();
    tags.push((TagKey::Mac, address));
    tags.push((TagKey::Name, name));
    assert(tags_view(tags@) =~= tag_set_spec(*aliases, *m, keep_colons));
    tags
}

/// `p` is the point that `m` gives under series name `name`, built at time
/// `timestamp_ns`.
pub open spec fn is_point_of(
    p: DataPoint,
    aliases: AliasTable,
    name: Seq<char>,
    m: Measurement,
    keep_colons: bool,
    timestamp_ns: u64,
) -> bool {
    &&& p.measurement@ == name
    &&& tags_view(p.tag_set@) == tag_set_spec(aliases, m, keep_colons)
    &&& p.field_set@ == field_set_spec(m)
    &&& p.timestamp_ns == timestamp_ns
}

/// Builds the data point of a measurement; `timestamp_ns` is the time of
/// construction.
pub fn to_data_point(
    aliases: &AliasTable,
    name: String,
    m: &Measurement,
    keep_colons: bool,
    timestamp_ns: u64,
) -> (r: DataPoint)
    ensures
        is_point_of(r, *aliases, name@, *m, keep_colons, timestamp_ns),
{
    DataPoint {
        measurement: name,
        tag_set: tag_set(aliases, m, keep_colons),
        field_set: field_set(m),
        timestamp_ns,
    }
}

/// Two points built from the same measurement under the same configuration
/// have the same tag and field sets; they differ at most in their timestamps,
/// each of which is the time of its own construction.
pub proof fn assembly_is_idempotent(
    p1: DataPoint,
    p2: DataPoint,
    aliases: AliasTable,
    name: Seq<char>,
    m: Measurement,
    keep_colons: bool,
    t1: u64,
    t2: u64,
)
    requires
        is_point_of(p1, aliases, name, m, keep_colons, t1),
        is_point_of(p2, aliases, name, m, keep_colons, t2),
    ensures
        p1.measurement@ == p2.measurement@,
        tags_view(p1.tag_set@) == tags_view(p2.tag_set@),
        p1.field_set@ == p2.field_set@,
        p1.timestamp_ns == t1 && p2.timestamp_ns == t2,
{
}

/// The `name` tag is the configured label of the `mac` tag's text where the
/// alias table has one, else that text itself; the tag value and the keys of
/// the table are normalized alike, with or without colons.
pub proof fn alias_resolution(aliases: AliasTable, m: Measurement, keep_colons: bool)
    ensures
        ({
            let tags = tag_set_spec(aliases, m, keep_colons);
            let key = address_chars(m.address.bytes@, keep_colons);
            &&& tags[0] == (TagKey::Mac, key)
            &&& aliases.view_map(keep_colons).contains_key(key) ==> tags[1] == (
                TagKey::Name,
                aliases.view_map(keep_colons)[key],
            )
            &&& !aliases.view_map(keep_colons).contains_key(key) ==> tags[1] == (TagKey::Name, key)
        }),
{
}

/// A character that line protocol escapes with a backslash: comma and space,
/// and in tags the equals sign too.
pub open spec fn needs_escape(c: char, in_tag: bool) -> bool {
    c == ',' || c == ' ' || (in_tag && c == '=')
}

/// `s` with each character that needs it preceded by a backslash.
pub open spec fn escaped(s: Seq<char>, in_tag: bool) -> Seq<char>
    decreases s.len(),
{
    if s.len() == 0 {
        Seq::empty()
    } else if needs_escape(s.last(), in_tag) {
        escaped(s.drop_last(), in_tag).push('\\').push(s.last())
    } else {
        escaped(s.drop_last(), in_tag).push(s.last())
    }
}

/// Appends `s` to `out`, escaped for line protocol.
pub fn push_escaped(out: &mut String, s: &str, in_tag: bool)
    ensures
        final(out)@ == old(out)@ + escaped(s@, in_tag),
{
    let n = s.unicode_len();
    let mut i: usize = 0;
    while i < n
        invariant
            n == s@.len(),
            i <= n,
            out@ == old(out)@ + escaped(s@.subrange(0, i as int), in_tag),
        decreases n - i,
    {
        let c = s.get_char(i);
        assert(s@.subrange(0, i + 1).drop_last() =~= s@.subrange(0, i as int));
        if c == ',' || c == ' ' || (in_tag && c == '=') {
            out.push('\\');
        }
        out.push(c);
        assert(out@ =~= old(out)@ + escaped(s@.subrange(0, i + 1), in_tag));
        i = i + 1;
    }
    assert(s@.subrange(0, n as int) =~= s@);
}

/// The tags `tags` as line protocol writes them after the series name:
/// `,key=value` each, in order, values escaped.
pub open spec fn tags_text(tags: Seq<(TagKey, Seq<char>)>) -> Seq<char>
    decreases tags.len(),
{
    if tags.len() == 0 {
        Seq::empty()
    } else {
        tags_text(tags.drop_last()) + seq![','] + tag_name(tags.last().0) + seq!['=']
            + escaped(tags.last().1, true)
    }
}

/// The key of a point in line protocol: the escaped series name followed by
/// `,key=value` for each tag, in order.
pub fn series_key(p: &DataPoint) -> (r: String)
    ensures
        r@ == escaped(p.measurement@, false) + tags_text(tags_view(p.tag_set@)),
{
    let mut out = String::new();
    push_escaped(&mut out, p.measurement.as_str(), false);
    let ghost head = out@;
    let mut i: usize = 0;
    while i < p.tag_set.len()
        invariant
            i <= p.tag_set@.len(),
            head == escaped(p.measurement@, false),
            out@ == head + tags_text(tags_view(p.tag_set@.subrange(0, i as int))),
        decreases p.tag_set.len() - i,
    {
        let ghost next = tags_view(p.tag_set@.subrange(0, i + 1));
        assert(next.drop_last() =~= tags_view(p.tag_set@.subrange(0, i as int)));
        out.push(',');
        let key = p.tag_set[i].0.name();
        out.append(key);
        out.push('=');
        push_escaped(&mut out, p.tag_set[i].1.as_str(), true);
        assert(out@ =~= head + tags_text(next));
        i = i + 1;
    }
    assert(p.tag_set@.subrange(0, p.tag_set@.len() as int) =~= p.tag_set@);
    out
}

} // verus!
