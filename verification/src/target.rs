//! Repository targets: validated `organization/name` pairs.

use vstd::prelude::*;
use vstd::std_specs::iter::IteratorSpec;
use vstd::string::*;

verus! {

broadcast use vstd::string::group_string_axioms;

/// The character that separates the organization from the repository name.
pub open spec fn separator() -> char {
    '/'
}

/// A segment is acceptable when it is non-empty and holds no separator.
pub open spec fn is_segment(s: Seq<char>) -> bool {
    &&& s.len() > 0
    &&& forall|i: int| 0 <= i < s.len() ==> s[i] != separator()
}

/// The text form of a pair: organization, separator, name.
pub open spec fn join(organization: Seq<char>, name: Seq<char>) -> Seq<char> {
    organization + seq![separator()] + name
}

/// `entry` splits into exactly these two acceptable segments.
pub open spec fn splits_into(entry: Seq<char>, organization: Seq<char>, name: Seq<char>) -> bool {
    &&& is_segment(organization)
    &&& is_segment(name)
    &&& entry == join(organization, name)
}

/// An entry is well formed when it splits into two acceptable segments.
pub open spec fn is_well_formed(entry: Seq<char>) -> bool {
    exists|organization: Seq<char>, name: Seq<char>| splits_into(entry, organization, name)
}

/// The mathematical value of a target.
pub struct TargetView {
    pub organization: Seq<char>,
    pub name: Seq<char>,
}

/// One repository, identified by its organization and its name.
#[derive(Debug, PartialEq, Eq)]
pub struct RepositoryTarget {
    organization: String,
    name: String,
}

impl View for RepositoryTarget {
    type V = TargetView;

    closed spec fn view(&self) -> TargetView {
        TargetView { organization: self.organization@, name: self.name@ }
    }
}

/// A well-formed entry splits in one way only.
pub proof fn law_split_is_unique(
    entry: Seq<char>,
    o1: Seq<char>,
    n1: Seq<char>,
    o2: Seq<char>,
    n2: Seq<char>,
)
    requires
        splits_into(entry, o1, n1),
        splits_into(entry, o2, n2),
    ensures
        o1 == o2,
        n1 == n2,
{
    let e1 = join(o1, n1);
    let e2 = join(o2, n2);
    assert(e1[o1.len() as int] == separator());
    assert(e2[o2.len() as int] == separator());
    if o1.len() < o2.len() {
        assert(e2[o1.len() as int] == o2[o1.len() as int]);
    } else if o2.len() < o1.len() {
        assert(e1[o2.len() as int] == o1[o2.len() as int]);
    }
    assert(o1.len() == o2.len());
    assert(o1 =~= o2) by {
        assert forall|i: int| 0 <= i < o1.len() implies o1[i] == o2[i] by {
            assert(e1[i] == o1[i]);
            assert(e2[i] == o2[i]);
        }
    }
    assert(n1 =~= n2) by {
        assert(e1.len() == o1.len() + 1 + n1.len());
        assert(e2.len() == o2.len() + 1 + n2.len());
        assert forall|i: int| 0 <= i < n1.len() implies n1[i] == n2[i] by {
            assert(e1[o1.len() + 1 + i] == n1[i]);
            assert(e2[o2.len() + 1 + i] == n2[i]);
        }
    }
}

/// The separator of `entry` stands at `at`: it is the only one, and neither
/// the first nor the last character.
pub open spec fn separates(entry: Seq<char>, at: int) -> bool {
    &&& 0 < at < entry.len() - 1
    &&& entry[at] == separator()
    &&& forall|j: int| 0 <= j < entry.len() && j != at ==> entry[j] != separator()
}

/// An entry is well formed exactly when it holds one separator, with
/// something before it and something after it. An entry that holds no
/// separator, or more than one, is not well formed.
pub proof fn law_one_separator(entry: Seq<char>)
    ensures
        is_well_formed(entry) <==> exists|at: int| separates(entry, at),
{
    if is_well_formed(entry) {
        let (o, n) = choose|o: Seq<char>, n: Seq<char>| splits_into(entry, o, n);
        let at = o.len() as int;
        let e = join(o, n);
        assert(e[at] == separator());
        assert forall|j: int| 0 <= j < entry.len() && j != at implies entry[j] != separator() by {
            if j < at {
                assert(e[j] == o[j]);
            } else {
                assert(e[j] == n[j - at - 1]);
            }
        }
        assert(separates(entry, at));
    }
    if exists|at: int| separates(entry, at) {
        let at = choose|at: int| separates(entry, at);
        let o = entry.take(at);
        let n = entry.skip(at + 1);
        assert(entry =~= join(o, n));
        assert(splits_into(entry, o, n));
    }
}

impl RepositoryTarget {
    #[verifier::type_invariant]
    spec fn well_formed(&self) -> bool {
        is_segment(self.organization@) && is_segment(self.name@)
    }

    /// Splits `entry` at its single separator. `None` when the entry does not
    /// consist of exactly two non-empty segments.
    pub fn parse(entry: &str) -> (r: Option<RepositoryTarget>)
        ensures
            r is Some <==> is_well_formed(entry@),
            r matches Some(t) ==> splits_into(entry@, t@.organization, t@.name),
    {
        let n: usize = entry.unicode_len();
        let mut first: usize = n;
        let mut i: usize = 0;
        let mut rest = entry.chars();
        loop
            invariant
                n == entry@.len(),
                i <= n,
                first <= n,
                first < n ==> first < i && entry@[first as int] == separator(),
                forall|j: int| 0 <= j < i && j != first ==> entry@[j] != separator(),
                rest.remaining() == entry@.skip(i as int),
            ensures
                i == n,
            decreases n - i,
        {
            match rest.next() {
                None => {
                    break ;
                },
                Some(c) => {
                    assert(c == entry@[i as int]);
                    if c == '/' {
                        if first < n {
                            proof {
                                law_one_separator(entry@);
                                assert forall|at: int| !separates(entry@, at) by {
                                    if at == first {
                                        assert(entry@[i as int] == separator());
                                    } else {
                                        assert(entry@[first as int] == separator());
                                    }
                                }
                            }
                            return None;
                        }
                        first = i;
                    }
                    assert(entry@.skip(i as int).drop_first() =~= entry@.skip(i + 1));
                    i = i + 1;
                },
            }
        }
        if first == n || first == 0 || first + 1 == n {
            proof {
                law_one_separator(entry@);
                assert forall|at: int| !separates(entry@, at) by {
                    if 0 <= at < n && at != first {
                        assert(entry@[at] != separator());
                    }
                }
            }
            return None;
        }
        let organization = entry.substring_char(0, first).to_owned();
        let name = entry.substring_char(first + 1, n).to_owned();
        proof {
            assert(entry@ =~= join(organization@, name@));
            assert(splits_into(entry@, organization@, name@));
        }
        Some(RepositoryTarget { organization, name })
    }

    /// The text form `organization/name`, which `parse` reads back.
    pub fn full_name(&self) -> (r: String)
        ensures
            r@ == join(self@.organization, self@.name),
            splits_into(r@, self@.organization, self@.name),
    {
        proof {
            use_type_invariant(self);
        }
        let mut text = self.organization.clone();
        text.append("/");
        proof {
            reveal_strlit("/");
            assert("/"@ =~= seq![separator()]);
        }
        text.append(self.name.as_str());
        text
    }

    /// The organization that owns the repository.
    pub fn organization(&self) -> (r: &String)
        ensures
            r@ == self@.organization,
            is_segment(r@),
    {
        proof {
            use_type_invariant(self);
        }
        &self.organization
    }

    /// The repository's name within its organization.
    pub fn name(&self) -> (r: &String)
        ensures
            r@ == self@.name,
            is_segment(r@),
    {
        proof {
            use_type_invariant(self);
        }
        &self.name
    }
}

impl Clone for RepositoryTarget {
    fn clone(&self) -> (r: Self)
        ensures
            r@ == self@,
    {
        proof {
            use_type_invariant(self);
        }
        RepositoryTarget { organization: self.organization.clone(), name: self.name.clone() }
    }
}

/// Why a list of entries was refused: the first entry that is not a pair.
#[derive(Debug, PartialEq, Eq)]
pub struct MalformedEntry {
    /// Position of the offending entry in the list.
    pub index: usize,
    /// The offending entry as it was given.
    pub entry: String,
}

/// The text that tells the operator that the list was refused, and names
/// the offending entry.
pub open spec fn refusal_text(entry: Seq<char>) -> Seq<char> {
    "Aborting. Some repositories are not in the org/repo format, e.g. "@ + entry
}

impl MalformedEntry {
    /// The text shown to the operator when the list is refused.
    pub fn message(&self) -> (r: String)
        ensures
            r@ == refusal_text(self.entry@),
    {
        let mut text = "Aborting. Some repositories are not in the org/repo format, e.g. ".to_owned();
        text.append(self.entry.as_str());
        text
    }
}

/// Every entry of the list is a pair.
pub open spec fn all_well_formed(entries: Seq<String>) -> bool {
    forall|i: int| 0 <= i < entries.len() ==> is_well_formed(#[trigger] entries[i]@)
}

/// `k` is the position of the first entry that is not a pair.
pub open spec fn is_first_malformed(entries: Seq<String>, k: int) -> bool {
    &&& 0 <= k < entries.len()
    &&& !is_well_formed(entries[k]@)
    &&& forall|j: int| 0 <= j < k ==> is_well_formed(#[trigger] entries[j]@)
}

/// `targets` is the list `entries`, in order, each entry split into its pair.
pub open spec fn is_decomposition(entries: Seq<String>, targets: Seq<RepositoryTarget>) -> bool {
    &&& targets.len() == entries.len()
    &&& forall|i: int|
        0 <= i < entries.len() ==> splits_into(
            #[trigger] entries[i]@,
            targets[i]@.organization,
            targets[i]@.name,
        )
}

/// Checks the whole list before anything is done with it. A list in which
/// every entry is a pair comes back decomposed, entry by entry and in order;
/// otherwise the whole list is refused, and the error names the first
/// offending entry.
pub fn validate_repos(repos: &Vec<String>) -> (r: Result<Vec<RepositoryTarget>, MalformedEntry>)
    ensures
        r is Ok <==> all_well_formed(repos@),
        r matches Ok(targets) ==> is_decomposition(repos@, targets@),
        r matches Err(e) ==> is_first_malformed(repos@, e.index as int) && e.entry@
            == repos@[e.index as int]@,
{
    let mut targets: Vec<RepositoryTarget> = Vec::new();
    let mut i: usize = 0;
    while i < repos.len()
        invariant
            i <= repos.len(),
            targets.len() == i,
            forall|j: int|
                0 <= j < i ==> splits_into(
                    #[trigger] repos@[j]@,
                    targets@[j]@.organization,
                    targets@[j]@.name,
                ),
        decreases repos.len() - i,
    {
        match RepositoryTarget::parse(repos[i].as_str()) {
            Some(target) => {
                targets.push(target);
            },
            None => {
                return Err(MalformedEntry { index: i, entry: repos[i].clone() });
            },
        }
        i = i + 1;
    }
    Ok(targets)
}

} // verus!
