use vstd::prelude::*;

use crate::model::{
    FieldDescriptor, FieldMapping, FieldModel, MappingModel, Projection, ProjectionModel, Token,
    TokenModel, Transfer, fields_view, mappings_view, tokens_view,
};

verus! {

/// What separates a token from the next one: nothing after a joint token,
/// one space otherwise.
pub open spec fn gap_after(t: TokenModel) -> Seq<char> {
    if t.joint {
        Seq::empty()
    } else {
        " "@
    }
}

/// The source text of a token sequence.
pub open spec fn tokens_text(toks: Seq<TokenModel>) -> Seq<char>
    decreases toks.len(),
{
    if toks.len() == 0 {
        Seq::empty()
    } else if toks.len() == 1 {
        toks[0].text
    } else {
        tokens_text(toks.drop_last()) + gap_after(toks[toks.len() - 2]) + toks.last().text
    }
}

/// `    pub name: type,` and a newline.
pub open spec fn field_line(f: FieldModel) -> Seq<char> {
    "    pub "@ + f.name + ": "@ + f.ty + ",\n"@
}

pub open spec fn field_lines(fields: Seq<FieldModel>) -> Seq<char>
    decreases fields.len(),
{
    if fields.len() == 0 {
        Seq::empty()
    } else {
        field_lines(fields.drop_last()) + field_line(fields.last())
    }
}

/// `field: source.field,` for a move, `field: source.field.clone(),` for a
/// duplicate.
pub open spec fn mapping_line(m: MappingModel) -> Seq<char> {
    "            "@ + m.field + ": source."@ + m.field + match m.transfer {
        Transfer::Move => ",\n"@,
        Transfer::Duplicate => ".clone(),\n"@,
    }
}

pub open spec fn mapping_lines(maps: Seq<MappingModel>) -> Seq<char>
    decreases maps.len(),
{
    if maps.len() == 0 {
        Seq::empty()
    } else {
        mapping_lines(maps.drop_last()) + mapping_line(maps.last())
    }
}

/// `impl From<source_ty> for name`, built from the given lines.
pub open spec fn conversion_text(name: Seq<char>, source_ty: Seq<char>, maps: Seq<MappingModel>) -> Seq<char> {
    "impl ::core::convert::From<"@ + source_ty + "> for "@ + name + " {\n"@
        + "    fn from(source: "@ + source_ty + ") -> Self {\n"@
        + "        Self {\n"@ + mapping_lines(maps) + "        }\n    }\n}\n"@
}

/// The Rust source of a projection: the struct, then the conversion from an
/// owned source value, then the one from a borrowed source value.
pub open spec fn projection_text(p: ProjectionModel) -> Seq<char> {
    "#[derive(Clone, Debug, PartialEq, diesel::Insertable, diesel::AsChangeset)]\n"@
        + "#[diesel("@ + tokens_text(p.table_binding) + ")]\n"@
        + "#[diesel("@ + tokens_text(p.changeset) + ")]\n"@
        + "pub struct "@ + p.name + " {\n"@ + field_lines(p.fields) + "}\n\n"@
        + conversion_text(p.name, p.source_name, p.by_value) + "\n"@
        + conversion_text(p.name, "&"@ + p.source_name, p.by_reference)
}

/// The source text of a token sequence.
pub fn tokens_source(toks: &Vec<Token>) -> (r: String)
    ensures
        r@ == tokens_text(tokens_view(toks@)),
{
    let ghost all = tokens_view(toks@);
    let mut out = String::new();
    let mut i: usize = 0;
    while i < toks.len()
        invariant
            i <= toks@.len(),
            all == tokens_view(toks@),
            out@ == tokens_text(all.take(i as int)),
        decreases toks@.len() - i,
    {
        let ghost before = out@;
        if i > 0 && !toks[i - 1].joint {
            out.append(" ");
        }
        out.append(toks[i].text.as_str());
        proof {
            let next = all.take(i + 1);
            assert(next.drop_last() =~= all.take(i as int));
            if i == 0 {
                assert(out@ =~= next[0].text);
            } else {
                assert(next[i - 1] == all[i - 1]);
                assert(out@ =~= before + gap_after(all[i - 1]) + next.last().text);
            }
        }
        i = i + 1;
    }
    assert(all.take(toks@.len() as int) =~= all);
    out
}

/// The declarations of the projection's fields.
pub fn field_declarations(fields: &Vec<FieldDescriptor>) -> (r: String)
    ensures
        r@ == field_lines(fields_view(fields@)),
{
    let ghost all = fields_view(fields@);
    let mut out = String::new();
    let mut i: usize = 0;
    while i < fields.len()
        invariant
            i <= fields@.len(),
            all == fields_view(fields@),
            out@ == field_lines(all.take(i as int)),
        decreases fields@.len() - i,
    {
        let ghost before = out@;
        out.append("    pub ");
        out.append(fields[i].name.as_str());
        out.append(": ");
        out.append(fields[i].ty.as_str());
        out.append(",\n");
        proof {
            let next = all.take(i + 1);
            assert(next.drop_last() =~= all.take(i as int));
            assert(out@ =~= before + field_line(all[i as int]));
        }
        i = i + 1;
    }
    assert(all.take(fields@.len() as int) =~= all);
    out
}

/// The field initialisers of a conversion.
pub fn mapping_initialisers(maps: &Vec<FieldMapping>) -> (r: String)
    ensures
        r@ == mapping_lines(mappings_view(maps@)),
{
    let ghost all = mappings_view(maps@);
    let mut out = String::new();
    let mut i: usize = 0;
    while i < maps.len()
        invariant
            i <= maps@.len(),
            all == mappings_view(maps@),
            out@ == mapping_lines(all.take(i as int)),
        decreases maps@.len() - i,
    {
        let ghost before = out@;
        out.append("            ");
        out.append(maps[i].field.as_str());
        out.append(": source.");
        out.append(maps[i].field.as_str());
        match maps[i].transfer {
            Transfer::Move => out.append(",\n"),
            Transfer::Duplicate => out.append(".clone(),\n"),
        }
        proof {
            let next = all.take(i + 1);
            assert(next.drop_last() =~= all.take(i as int));
            assert(out@ =~= before + mapping_line(all[i as int]));
        }
        i = i + 1;
    }
    assert(all.take(maps@.len() as int) =~= all);
    out
}

fn conversion_source(name: &String, source_ty: &String, maps: &Vec<FieldMapping>) -> (r: String)
    ensures
        r@ == conversion_text(name@, source_ty@, mappings_view(maps@)),
{
    let mut out = String::from_str("impl ::core::convert::From<");
    out.append(source_ty.as_str());
    out.append("> for ");
    out.append(name.as_str());
    out.append(" {\n");
    out.append("    fn from(source: ");
    out.append(source_ty.as_str());
    out.append(") -> Self {\n");
    out.append("        Self {\n");
    let lines = mapping_initialisers(maps);
    out.append(lines.as_str());
    out.append("        }\n    }\n}\n");
    out
}

/// The Rust source text of the projection.
pub fn render_projection(p: &Projection) -> (r: String)
    ensures
        r@ == projection_text(p@),
{
    let mut out = String::from_str(
        "#[derive(Clone, Debug, PartialEq, diesel::Insertable, diesel::AsChangeset)]\n",
    );
    out.append("#[diesel(");
    let binding = tokens_source(&p.table_binding);
    out.append(binding.as_str());
    out.append(")]\n");
    out.append("#[diesel(");
    let changeset = tokens_source(&p.changeset);
    out.append(changeset.as_str());
    out.append(")]\n");
    out.append("pub struct ");
    out.append(p.name.as_str());
    out.append(" {\n");
    let decls = field_declarations(&p.fields);
    out.append(decls.as_str());
    out.append("}\n\n");
    let owned = conversion_source(&p.name, &p.source_name, &p.by_value);
    out.append(owned.as_str());
    out.append("\n");
    let mut borrowed_ty = String::from_str("&");
    borrowed_ty.append(p.source_name.as_str());
    let borrowed = conversion_source(&p.name, &borrowed_ty, &p.by_reference);
    out.append(borrowed.as_str());
    out
}

} // verus!
