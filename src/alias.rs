use crate::address::{normalize_text, normalized_text};
use vstd::prelude::*;

verus! {

/// A configured human-readable label for a device address.
#[derive(Debug, Clone)]
pub struct Alias {
    pub address: String,
    pub name: String,
}

/// `i` is the position of the first `=` in `s`.
pub open spec fn first_equals_at(s: Seq<char>, i: int) -> bool {
    0 <= i < s.len() && s[i] == '=' && forall|j: int| 0 <= j < i ==> s[j] != '='
}

/// Parses `ADDRESS=NAME`: the address is the text before the first `=`, the
/// name all that follows it. Text without `=` is no alias.
pub fn parse_alias(src: &str) -> (r: Result<Alias, String>)
    ensures
        r is Err <==> !src@.contains('='),
        r matches Err(e) ==> e@ == "invalid alias"@,
        r matches Ok(a) ==> exists|i: int|
            first_equals_at(src@, i) && a.address@ == src@.subrange(0, i) && a.name@
                == src@.subrange(i + 1, src@.len() as int),
{
    let n = src.unicode_len();
    let mut i: usize = 0;
    while i < n
        invariant
            n == src@.len(),
            i <= n,
            forall|j: int| 0 <= j < i ==> src@[j] != '=',
        decreases n - i,
    {
        if src.get_char(i) == '=' {
            let address = String::from_str(src.substring_char(0, i));
            let name = String::from_str(src.substring_char(i + 1, n));
            assert(first_equals_at(src@, i as int));
            return Ok(Alias { address, name });
        }
        i = i + 1;
    }
    assert(!src@.contains('='));
    Err(String::from_str("invalid alias"))
}

/// The label that a list of aliases gives to a normalized address: the last
/// alias whose address, normalized the same way, equals it wins.
pub open spec fn alias_lookup(aliases: Seq<Alias>, address: Seq<char>, keep_colons: bool) -> Option<
    Seq<char>,
>
    decreases aliases.len(),
{
    if aliases.len() == 0 {
        None
    } else if normalized_text(aliases.last().address@, keep_colons) == address {
        Some(aliases.last().name@)
    } else {
        alias_lookup(aliases.drop_last(), address, keep_colons)
    }
}

/// Read-only mapping from normalized address to display name.
#[derive(Debug, Clone)]
pub struct AliasTable {
    entries: Vec<Alias>,
}

impl AliasTable {
    /// The mapping from normalized address text to label, with colons kept in
    /// both or stripped from both.
    pub open spec fn view_map(&self, keep_colons: bool) -> Map<Seq<char>, Seq<char>> {
        Map::new(
            |k: Seq<char>| self.lookup(k, keep_colons) is Some,
            |k: Seq<char>| self.lookup(k, keep_colons)->Some_0,
        )
    }

    pub closed spec fn entries_view(&self) -> Seq<Alias> {
        self.entries@
    }

    pub open spec fn lookup(&self, address: Seq<char>, keep_colons: bool) -> Option<Seq<char>> {
        alias_lookup(self.entries_view(), address, keep_colons)
    }

    /// Label for the normalized `address`: the configured one, else the
    /// address itself.
    pub open spec fn resolve_spec(&self, address: Seq<char>, keep_colons: bool) -> Seq<char> {
        match self.lookup(address, keep_colons) {
            Some(name) => name,
            None => address,
        }
    }

    /// Returns the label of the last alias whose address, normalized with
    /// `keep_colons`, equals `address`, or `address` itself when there is none.
    pub fn resolve(&self, address: &str, keep_colons: bool) -> (r: String)
        ensures
            r@ == self.resolve_spec(address@, keep_colons),
    {
        let key = String::from_str(address);
        let mut i: usize = self.entries.len();
        assert(self.entries@.subrange(0, i as int) =~= self.entries@);
        while i > 0
            invariant
                i <= self.entries@.len(),
                key@ == address@,
                alias_lookup(self.entries@, address@, keep_colons) == alias_lookup(
                    self.entries@.subrange(0, i as int),
                    address@,
                    keep_colons,
                ),
            decreases i,
        {
            let ghost pre = self.entries@.subrange(0, i as int);
            assert(pre.drop_last() =~= self.entries@.subrange(0, i - 1));
            let candidate = normalize_text(self.entries[i - 1].address.as_str(), keep_colons);
            if candidate == key {
                return self.entries[i - 1].name.clone();
            }
            i = i - 1;
        }
        key
    }
}

/// Builds the alias table; a later alias for the same address replaces an
/// earlier one.
pub fn alias_map(aliases: &[Alias]) -> (r: AliasTable)
    ensures
        forall|k: Seq<char>, keep_colons: bool| #[trigger] r.lookup(k, keep_colons) == alias_lookup(
            aliases@,
            k,
            keep_colons,
        ),
{
    let mut entries: Vec<Alias> = Vec::new();
    let mut i: usize = 0;
    while i < aliases.len()
        invariant
            i <= aliases@.len(),
            entries@.len() == i,
            forall|j: int| 0 <= j < i ==> #[trigger] entries@[j].address@ == aliases@[j].address@
                && entries@[j].name@ == aliases@[j].name@,
        decreases aliases.len() - i,
    {
        let a = Alias { address: aliases[i].address.clone(), name: aliases[i].name.clone() };
        entries.push(a);
        i = i + 1;
    }
    let r = AliasTable { entries };
    assert forall|k: Seq<char>, keep_colons: bool| #[trigger]
        r.lookup(k, keep_colons) == alias_lookup(aliases@, k, keep_colons) by {
        lemma_lookup_same(entries@, aliases@, k, keep_colons);
    }
    r
}

proof fn lemma_lookup_same(a: Seq<Alias>, b: Seq<Alias>, k: Seq<char>, keep_colons: bool)
    requires
        a.len() == b.len(),
        forall|j: int| 0 <= j < a.len() ==> #[trigger] a[j].address@ == b[j].address@ && a[j].name@
            == b[j].name@,
    ensures
        alias_lookup(a, k, keep_colons) == alias_lookup(b, k, keep_colons),
    decreases a.len(),
{
    if a.len() > 0 {
        lemma_lookup_same(a.drop_last(), b.drop_last(), k, keep_colons);
    }
}

} // verus!
