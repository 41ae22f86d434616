use vstd::prelude::*;

use crate::ident::{is_identifier, parses_as_ident};
use crate::model::{Annotation, AnnotationKind, GenerateError, GenerateErrorModel, Token, texts_view};

verus! {

/// Whether the annotation binds the type to a table: `#[diesel(...)]` with a
/// `table_name` key among its tokens.
pub open spec fn binds_table(a: Annotation) -> bool {
    &&& a.name@ == "diesel"@
    &&& exists|j: int| 0 <= j < a.tokens@.len() && (#[trigger] a.tokens@[j]).text@ == "table_name"@
}

/// Whether the annotation is an exclusion list, `#[non_new_fields(...)]`.
pub open spec fn lists_exclusions(a: Annotation) -> bool {
    a.name@ == "non_new_fields"@
}

/// `i` is the first position in `s` whose annotation satisfies `p`.
pub open spec fn is_first_where(s: Seq<Annotation>, i: int, p: spec_fn(Annotation) -> bool) -> bool {
    &&& 0 <= i < s.len()
    &&& p(s[i])
    &&& forall|j: int| 0 <= j < i ==> !p(#[trigger] s[j])
}

/// The first position in `s` whose annotation satisfies `p`, if any.
pub open spec fn first_where(s: Seq<Annotation>, p: spec_fn(Annotation) -> bool) -> Option<int> {
    if exists|i: int| is_first_where(s, i, p) {
        Some(choose|i: int| is_first_where(s, i, p))
    } else {
        None
    }
}

pub proof fn lemma_first_where_some(s: Seq<Annotation>, i: int, p: spec_fn(Annotation) -> bool)
    requires
        is_first_where(s, i, p),
    ensures
        first_where(s, p) == Some(i),
{
    let k = choose|k: int| is_first_where(s, k, p);
    assert(is_first_where(s, k, p));
    if k < i {
        assert(!p(s[k]));
    } else if i < k {
        assert(!p(s[i]));
    }
}

pub proof fn lemma_first_where_none(s: Seq<Annotation>, p: spec_fn(Annotation) -> bool)
    requires
        forall|j: int| 0 <= j < s.len() ==> !p(#[trigger] s[j]),
    ensures
        first_where(s, p) == None::<int>,
{
    assert(!exists|i: int| is_first_where(s, i, p)) by {
        if exists|i: int| is_first_where(s, i, p) {
            let i = choose|i: int| is_first_where(s, i, p);
            assert(!p(s[i]));
        }
    }
}

pub proof fn lemma_first_where_exists(s: Seq<Annotation>, j: int, p: spec_fn(Annotation) -> bool)
    requires
        0 <= j < s.len(),
        p(s[j]),
    ensures
        first_where(s, p) is Some,
    decreases j,
{
    if exists|m: int| 0 <= m < j && p(#[trigger] s[m]) {
        let m = choose|m: int| 0 <= m < j && p(#[trigger] s[m]);
        lemma_first_where_exists(s, m, p);
    } else {
        assert(is_first_where(s, j, p));
    }
}

/// The token sequence is a comma-separated list of identifiers, possibly
/// empty and possibly with a trailing comma.
pub open spec fn is_ident_list(toks: Seq<Token>) -> bool {
    forall|i: int|
        0 <= i < toks.len() ==> if i % 2 == 0 {
            parses_as_ident((#[trigger] toks[i]).text@)
        } else {
            toks[i].text@ == ","@
        }
}

/// The identifiers of such a list, in order.
pub open spec fn listed_idents(toks: Seq<Token>) -> Seq<Seq<char>> {
    Seq::new(((toks.len() + 1) / 2) as nat, |k: int| toks[2 * k].text@)
}

/// The names left out when no exclusion list is given.
pub open spec fn default_exclusions() -> Seq<Seq<char>> {
    seq!["created_at"@, "updated_at"@, "id"@]
}

pub open spec fn exclusion_list_reason() -> Seq<char> {
    "exclusion list must be a list of identifiers"@
}

/// The names to leave out: those of the first exclusion list, or the
/// defaults where there is none; `None` where that list is malformed.
pub open spec fn excluded_names(anns: Seq<Annotation>) -> Option<Seq<Seq<char>>> {
    match first_where(anns, |a: Annotation| lists_exclusions(a)) {
        None => Some(default_exclusions()),
        Some(i) => if is_ident_list(anns[i].tokens@) {
            Some(listed_idents(anns[i].tokens@))
        } else {
            None
        },
    }
}

/// Whether the annotation binds the source type to a table.
pub fn is_table_binding(a: &Annotation) -> (r: bool)
    ensures
        r == binds_table(*a),
{
    let marker = String::from_str("diesel");
    if a.name != marker {
        return false;
    }
    let key = String::from_str("table_name");
    let mut j: usize = 0;
    while j < a.tokens.len()
        invariant
            j <= a.tokens@.len(),
            key@ == "table_name"@,
            a.name@ == "diesel"@,
            forall|k: int| 0 <= k < j ==> (#[trigger] a.tokens@[k]).text@ != "table_name"@,
        decreases a.tokens@.len() - j,
    {
        if a.tokens[j].text == key {
            assert(a.tokens@[j as int].text@ == "table_name"@);
            return true;
        }
        j = j + 1;
    }
    false
}

/// The position of the first annotation that binds the type to a table.
pub fn find_table_binding(anns: &Vec<Annotation>) -> (r: Option<usize>)
    ensures
        r matches Some(i) ==> is_first_where(anns@, i as int, |a: Annotation| binds_table(a)),
        r is None ==> forall|j: int| 0 <= j < anns@.len() ==> !binds_table(#[trigger] anns@[j]),
        r matches Some(i) ==> first_where(anns@, |a: Annotation| binds_table(a)) == Some(i as int),
        r is None ==> first_where(anns@, |a: Annotation| binds_table(a)) == None::<int>,
{
    let mut i: usize = 0;
    while i < anns.len()
        invariant
            i <= anns@.len(),
            forall|j: int| 0 <= j < i ==> !binds_table(#[trigger] anns@[j]),
        decreases anns@.len() - i,
    {
        if is_table_binding(&anns[i]) {
            proof {
                lemma_first_where_some(anns@, i as int, |a: Annotation| binds_table(a));
            }
            return Some(i);
        }
        i = i + 1;
    }
    proof {
        lemma_first_where_none(anns@, |a: Annotation| binds_table(a));
    }
    None
}

/// The position of the first exclusion-list annotation.
pub fn find_exclusion_list(anns: &Vec<Annotation>) -> (r: Option<usize>)
    ensures
        r matches Some(i) ==> is_first_where(anns@, i as int, |a: Annotation| lists_exclusions(a)),
        r is None ==> forall|j: int| 0 <= j < anns@.len() ==> !lists_exclusions(#[trigger] anns@[j]),
        r matches Some(i) ==> first_where(anns@, |a: Annotation| lists_exclusions(a)) == Some(i as int),
        r is None ==> first_where(anns@, |a: Annotation| lists_exclusions(a)) == None::<int>,
{
    let marker = String::from_str("non_new_fields");
    let mut i: usize = 0;
    while i < anns.len()
        invariant
            i <= anns@.len(),
            marker@ == "non_new_fields"@,
            forall|j: int| 0 <= j < i ==> !lists_exclusions(#[trigger] anns@[j]),
        decreases anns@.len() - i,
    {
        if anns[i].name == marker {
            proof {
                lemma_first_where_some(anns@, i as int, |a: Annotation| lists_exclusions(a));
            }
            return Some(i);
        }
        i = i + 1;
    }
    proof {
        lemma_first_where_none(anns@, |a: Annotation| lists_exclusions(a));
    }
    None
}

/// Reads an exclusion list: the identifiers of `ident, ident, ...`, or
/// `None` where a token is out of place.
pub fn parse_exclusion_list(toks: &Vec<Token>) -> (r: Option<Vec<String>>)
    ensures
        r is Some <==> is_ident_list(toks@),
        r matches Some(names) ==> texts_view(names@) == listed_idents(toks@),
{
    let comma = String::from_str(",");
    let mut names: Vec<String> = Vec::new();
    let mut i: usize = 0;
    while i < toks.len()
        invariant
            i <= toks@.len(),
            comma@ == ","@,
            forall|k: int|
                0 <= k < i ==> if k % 2 == 0 {
                    parses_as_ident((#[trigger] toks@[k]).text@)
                } else {
                    toks@[k].text@ == ","@
                },
            names@.len() == (i + 1) / 2,
            forall|k: int| 0 <= k < names@.len() ==> (#[trigger] names@[k])@ == toks@[2 * k].text@,
        decreases toks@.len() - i,
    {
        if i % 2 == 0 {
            if !is_identifier(toks[i].text.as_str()) {
                assert(!is_ident_list(toks@)) by {
                    assert(!parses_as_ident(toks@[i as int].text@));
                }
                return None;
            }
            names.push(toks[i].text.clone());
        } else if toks[i].text != comma {
            assert(!is_ident_list(toks@)) by {
                assert(toks@[i as int].text@ != ","@);
            }
            return None;
        }
        i = i + 1;
    }
    assert(texts_view(names@) =~= listed_idents(toks@));
    Some(names)
}

/// The names to leave out of the projection of the type named `source`.
pub fn resolve_exclusions(source: &String, anns: &Vec<Annotation>) -> (r: Result<Vec<String>, GenerateError>)
    ensures
        r matches Ok(names) ==> excluded_names(anns@) == Some(texts_view(names@)),
        r matches Err(e) ==> excluded_names(anns@) is None && e@ == (GenerateErrorModel::MalformedAnnotationContent {
            source_type: source@,
            kind: AnnotationKind::ExclusionList,
            reason: exclusion_list_reason(),
        }),
{
    match find_exclusion_list(anns) {
        None => {
            let mut names: Vec<String> = Vec::new();
            names.push(String::from_str("created_at"));
            names.push(String::from_str("updated_at"));
            names.push(String::from_str("id"));
            assert(texts_view(names@) =~= default_exclusions());
            Ok(names)
        },
        Some(i) => match parse_exclusion_list(&anns[i].tokens) {
            Some(names) => Ok(names),
            None => Err(GenerateError::MalformedAnnotationContent {
                source_type: source.clone(),
                kind: AnnotationKind::ExclusionList,
                reason: String::from_str("exclusion list must be a list of identifiers"),
            }),
        },
    }
}

} // verus!
