use convert_case::{Case, Casing};
use vstd::prelude::*;

verus! {

/// The Pascal-case rendering of `text`, as `convert_case` computes it.
pub uninterp spec fn pascal_case(text: Seq<char>) -> Seq<char>;

/// Calls `convert_case::Casing::to_case` with `Case::Pascal`. The result is
/// a function of the text alone; the contract gives it the name
/// [`pascal_case`] and claims nothing else of it.
#[verifier::external_body]
fn to_pascal_case(text: &str) -> (rendered: String)
    ensures
        rendered@ == pascal_case(text@),
{
    text.to_case(Case::Pascal)
}

/// The type name of the aggregate reached by `chain`: the Pascal-case
/// renderings of the segments, outermost first, joined without separator.
pub open spec fn resolved_name(chain: Seq<Seq<char>>) -> Seq<char>
    decreases chain.len(),
{
    if chain.len() == 0 {
        Seq::empty()
    } else {
        resolved_name(chain.drop_last()) + pascal_case(chain.last())
    }
}

/// Extending a chain appends the Pascal-case rendering of the new segment.
pub proof fn lemma_resolved_name_push(chain: Seq<Seq<char>>, segment: Seq<char>)
    ensures
        resolved_name(chain.push(segment)) == resolved_name(chain) + pascal_case(segment),
{
    assert(chain.push(segment).drop_last() =~= chain);
}

/// Derives the type name of a nested aggregate from its ancestor chain: the
/// root type's name first, then the name of each enclosing table or inline
/// table, ending with the aggregate's own.
pub fn resolve_name(chain: &Vec<String>) -> (name: String)
    ensures
        name@ == resolved_name(chain.deep_view()),
{
    let mut name = String::new();
    let mut i: usize = 0;
    while i < chain.len()
        invariant
            i <= chain.len(),
            name@ == resolved_name(chain.deep_view().take(i as int)),
        decreases chain.len() - i,
    {
        let segment = to_pascal_case(chain[i].as_str());
        proof {
            let before = chain.deep_view().take(i as int);
            assert(chain.deep_view().take(i + 1) =~= before.push(chain[i as int]@));
            lemma_resolved_name_push(before, chain[i as int]@);
        }
        name.append(segment.as_str());
        i += 1;
    }
    assert(chain.deep_view().take(chain.len() as int) =~= chain.deep_view());
    name
}

/// A copy of `chain` with `segment` added at its inner end.
pub fn extend_chain(chain: &Vec<String>, segment: &str) -> (longer: Vec<String>)
    ensures
        longer.deep_view() == chain.deep_view().push(segment@),
{
    let mut longer: Vec<String> = Vec::new();
    let mut i: usize = 0;
    while i < chain.len()
        invariant
            i <= chain.len(),
            longer.len() == i,
            forall|k: int| 0 <= k < i ==> longer[k]@ == chain[k]@,
        decreases chain.len() - i,
    {
        longer.push(chain[i].clone());
        i += 1;
    }
    longer.push(String::from_str(segment));
    longer
}

/// The chain that holds `root` alone.
pub fn root_chain(root: &str) -> (chain: Vec<String>)
    ensures
        chain.deep_view() == seq![root@],
{
    let mut chain: Vec<String> = Vec::new();
    chain.push(String::from_str(root));
    chain
}

/// A copy of `chain`.
pub fn copy_chain(chain: &Vec<String>) -> (copy: Vec<String>)
    ensures
        copy.deep_view() == chain.deep_view(),
{
    let mut copy: Vec<String> = Vec::new();
    let mut i: usize = 0;
    while i < chain.len()
        invariant
            i <= chain.len(),
            copy.len() == i,
            forall|k: int| 0 <= k < i ==> copy[k]@ == chain[k]@,
        decreases chain.len() - i,
    {
        copy.push(chain[i].clone());
        i += 1;
    }
    copy
}

} // verus!
