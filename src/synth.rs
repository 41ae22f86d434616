use vstd::prelude::*;

use crate::model::{
    FieldDescriptor, FieldMapping, FieldModel, MappingModel, Token, TokenModel, Transfer,
    fields_view, mappings_view, tokens_view,
};

verus! {

/// The projection of type `source` is named `Insertable<source>`.
pub open spec fn projection_name_of(source: Seq<char>) -> Seq<char> {
    "Insertable"@ + source
}

/// The changeset configuration every projection carries:
/// `treat_none_as_null = true`.
pub open spec fn default_changeset() -> Seq<TokenModel> {
    seq![
        TokenModel { text: "treat_none_as_null"@, joint: false },
        TokenModel { text: "="@, joint: false },
        TokenModel { text: "true"@, joint: false },
    ]
}

/// One conversion line per field, each carrying its field the same way.
pub open spec fn mappings_of(fields: Seq<FieldModel>, transfer: Transfer) -> Seq<MappingModel> {
    fields.map_values(|f: FieldModel| MappingModel { field: f.name, transfer })
}

pub fn projection_name(source: &String) -> (r: String)
    ensures
        r@ == projection_name_of(source@),
{
    let mut name = String::from_str("Insertable");
    name.append(source.as_str());
    name
}

pub fn changeset_tokens() -> (r: Vec<Token>)
    ensures
        tokens_view(r@) == default_changeset(),
{
    let mut toks: Vec<Token> = Vec::new();
    toks.push(Token { text: String::from_str("treat_none_as_null"), joint: false });
    toks.push(Token { text: String::from_str("="), joint: false });
    toks.push(Token { text: String::from_str("true"), joint: false });
    assert(tokens_view(toks@) =~= default_changeset());
    toks
}

/// A copy of a token sequence, token for token.
pub fn copy_tokens(toks: &Vec<Token>) -> (r: Vec<Token>)
    ensures
        r@ == toks@,
{
    let mut out: Vec<Token> = Vec::new();
    let mut i: usize = 0;
    while i < toks.len()
        invariant
            i <= toks@.len(),
            out@ == toks@.take(i as int),
        decreases toks@.len() - i,
    {
        out.push(Token { text: toks[i].text.clone(), joint: toks[i].joint });
        assert(out@ =~= toks@.take(i + 1));
        i = i + 1;
    }
    assert(toks@.take(toks@.len() as int) =~= toks@);
    out
}

/// The lines of a conversion over `fields`, each carrying its field by
/// `transfer`.
pub fn conversion_mappings(fields: &Vec<FieldDescriptor>, transfer: Transfer) -> (r: Vec<FieldMapping>)
    ensures
        mappings_view(r@) == mappings_of(fields_view(fields@), transfer),
{
    let mut out: Vec<FieldMapping> = Vec::new();
    let mut i: usize = 0;
    while i < fields.len()
        invariant
            i <= fields@.len(),
            out@.len() == i,
            mappings_view(out@) == mappings_of(fields_view(fields@), transfer).take(i as int),
        decreases fields@.len() - i,
    {
        out.push(FieldMapping { field: fields[i].name.clone(), transfer });
        assert(mappings_view(out@)[i as int] == mappings_of(fields_view(fields@), transfer)[i as int]);
        assert(mappings_view(out@) =~= mappings_of(fields_view(fields@), transfer).take(i + 1));
        i = i + 1;
    }
    assert(mappings_of(fields_view(fields@), transfer).take(fields@.len() as int)
        =~= mappings_of(fields_view(fields@), transfer));
    out
}

} // verus!
