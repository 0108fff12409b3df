//! The grammar of linkage names: a fixed prefix, then fields that three
//! underscores divide, which name the package, the class and the member.

use vstd::prelude::*;
use crate::text::{
    free_of, has_prefix, joined, split, split_fields, split_of_all_joined, starts_with, str_eq,
    strings_view,
};

verus! {

/// What a linkage name says of the member it stands for.
#[derive(Clone, Debug)]
pub enum Role {
    Drop,
    Method { name: String, consume: bool },
    Constructor,
    Static { name: String },
    Getter { name: String },
    Setter { name: String },
    /// The keyword in the member's place is none of the known ones.
    Unknown { keyword: String },
    /// The name ends before the member is named.
    Incomplete,
}

/// The mathematical value of a `Role`.
pub enum RoleModel {
    Drop,
    Method { name: Seq<char>, consume: bool },
    Constructor,
    Static { name: Seq<char> },
    Getter { name: Seq<char> },
    Setter { name: Seq<char> },
    Unknown { keyword: Seq<char> },
    Incomplete,
}

impl View for Role {
    type V = RoleModel;

    open spec fn view(&self) -> RoleModel {
        match *self {
            Role::Drop => RoleModel::Drop,
            Role::Method { name, consume } => RoleModel::Method { name: name@, consume },
            Role::Constructor => RoleModel::Constructor,
            Role::Static { name } => RoleModel::Static { name: name@ },
            Role::Getter { name } => RoleModel::Getter { name: name@ },
            Role::Setter { name } => RoleModel::Setter { name: name@ },
            Role::Unknown { keyword } => RoleModel::Unknown { keyword: keyword@ },
            Role::Incomplete => RoleModel::Incomplete,
        }
    }
}

/// What a linkage name decodes to.
#[derive(Clone, Debug)]
pub enum Decoded {
    /// The name does not begin with the prefix.
    Foreign,
    /// The name ends before the class is named.
    Malformed,
    /// The name belongs to another package.
    PackageMismatch { found: String },
    /// The name is scoped to something that is no class.
    UnknownScope { scope: String },
    /// The name belongs to a class, as the handle of the class or as a member.
    Class { class_name: String, role: Role },
}

/// The mathematical value of a `Decoded`.
pub enum DecodedModel {
    Foreign,
    Malformed,
    PackageMismatch { found: Seq<char> },
    UnknownScope { scope: Seq<char> },
    Class { class_name: Seq<char>, role: RoleModel },
}

impl View for Decoded {
    type V = DecodedModel;

    open spec fn view(&self) -> DecodedModel {
        match *self {
            Decoded::Foreign => DecodedModel::Foreign,
            Decoded::Malformed => DecodedModel::Malformed,
            Decoded::PackageMismatch { found } => DecodedModel::PackageMismatch { found: found@ },
            Decoded::UnknownScope { scope } => DecodedModel::UnknownScope { scope: scope@ },
            Decoded::Class { class_name, role } => DecodedModel::Class {
                class_name: class_name@,
                role: role@,
            },
        }
    }
}

/// The fields of a linkage name.
pub open spec fn fields_of(name: Seq<char>) -> Seq<Seq<char>> {
    split_fields(name, "___"@)
}

/// The member that the fields name: the keyword is the sixth field, the
/// member's own name the seventh.
pub open spec fn role_of(fields: Seq<Seq<char>>) -> RoleModel {
    if fields.len() < 6 {
        RoleModel::Incomplete
    } else if fields[5] == "drop"@ {
        RoleModel::Drop
    } else if fields[5] == "method"@ || fields[5] == "method_consume"@ {
        if fields.len() < 7 {
            RoleModel::Incomplete
        } else {
            RoleModel::Method { name: fields[6], consume: fields[5] == "method_consume"@ }
        }
    } else if fields[5] == "static"@ {
        if fields.len() < 7 {
            RoleModel::Incomplete
        } else if fields[6] == "new"@ {
            RoleModel::Constructor
        } else {
            RoleModel::Static { name: fields[6] }
        }
    } else if fields[5] == "getter"@ {
        if fields.len() < 7 {
            RoleModel::Incomplete
        } else {
            RoleModel::Getter { name: fields[6] }
        }
    } else if fields[5] == "setter"@ {
        if fields.len() < 7 {
            RoleModel::Incomplete
        } else {
            RoleModel::Setter { name: fields[6] }
        }
    } else {
        RoleModel::Unknown { keyword: fields[5] }
    }
}

/// What a linkage name means in a package: the name must begin with the
/// prefix; its third field must be the package, its fourth the word `class`,
/// and its fifth is then the class. Each test is made as soon as its field
/// is there.
pub open spec fn decoding(name: Seq<char>, package: Seq<char>) -> DecodedModel {
    let fields = fields_of(name);
    if !has_prefix(name, "___finch_bindgen"@) {
        DecodedModel::Foreign
    } else if fields.len() < 3 {
        DecodedModel::Malformed
    } else if fields[2] != package {
        DecodedModel::PackageMismatch { found: fields[2] }
    } else if fields.len() < 4 {
        DecodedModel::Malformed
    } else if fields[3] != "class"@ {
        DecodedModel::UnknownScope { scope: fields[3] }
    } else if fields.len() < 5 {
        DecodedModel::Malformed
    } else {
        DecodedModel::Class { class_name: fields[4], role: role_of(fields) }
    }
}

/// Reads the member off the fields of a linkage name.
pub fn decode_role(fields: &Vec<String>) -> (out: Role)
    ensures
        out@ == role_of(strings_view(fields@)),
{
    if fields.len() < 6 {
        return Role::Incomplete;
    }
    let keyword = fields[5].as_str();
    if str_eq(keyword, "drop") {
        return Role::Drop;
    }
    let consume = str_eq(keyword, "method_consume");
    if consume || str_eq(keyword, "method") {
        if fields.len() < 7 {
            return Role::Incomplete;
        }
        return Role::Method { name: fields[6].clone(), consume };
    }
    if str_eq(keyword, "static") {
        if fields.len() < 7 {
            return Role::Incomplete;
        }
        if str_eq(fields[6].as_str(), "new") {
            return Role::Constructor;
        }
        return Role::Static { name: fields[6].clone() };
    }
    if str_eq(keyword, "getter") {
        if fields.len() < 7 {
            return Role::Incomplete;
        }
        return Role::Getter { name: fields[6].clone() };
    }
    if str_eq(keyword, "setter") {
        if fields.len() < 7 {
            return Role::Incomplete;
        }
        return Role::Setter { name: fields[6].clone() };
    }
    Role::Unknown { keyword: fields[5].clone() }
}

/// Decodes a linkage name in a package.
pub fn decode(name: &str, package: &str) -> (out: Decoded)
    ensures
        out@ == decoding(name@, package@),
{
    if !starts_with(name, "___finch_bindgen") {
        return Decoded::Foreign;
    }
    let fields = split(name, "___");
    if fields.len() < 3 {
        return Decoded::Malformed;
    }
    if !str_eq(fields[2].as_str(), package) {
        return Decoded::PackageMismatch { found: fields[2].clone() };
    }
    if fields.len() < 4 {
        return Decoded::Malformed;
    }
    if !str_eq(fields[3].as_str(), "class") {
        return Decoded::UnknownScope { scope: fields[3].clone() };
    }
    if fields.len() < 5 {
        return Decoded::Malformed;
    }
    Decoded::Class { class_name: fields[4].clone(), role: decode_role(&fields) }
}

/// A name and a package decode in one way only: two decodings of the same
/// name in the same package have the same value.
pub proof fn decoding_is_a_function(first: Decoded, second: Decoded, name: Seq<char>, package: Seq<char>)
    requires
        first@ == decoding(name, package),
        second@ == decoding(name, package),
    ensures
        first@ == second@,
{
}

/// A linkage name put together from its fields decodes to them: where the
/// first field is empty, the second the marker, the third the package and the
/// fourth the word `class`, and no field holds or ends in a part of the
/// delimiter, the name decodes to the class in the fifth field and to the
/// member that the fields behind it name.
pub proof fn assembled_name_decodes(fields: Seq<Seq<char>>, package: Seq<char>)
    requires
        fields.len() >= 5,
        fields[0].len() == 0,
        fields[1] == "finch_bindgen"@,
        fields[2] == package,
        fields[3] == "class"@,
        forall|i: int| 0 <= i < fields.len() ==> free_of(#[trigger] fields[i], "___"@),
    ensures
        fields_of(joined(fields, "___"@)) == fields,
        decoding(joined(fields, "___"@), package) == (DecodedModel::Class {
            class_name: fields[4],
            role: role_of(fields),
        }),
{
    reveal_strlit("___");
    reveal_strlit("finch_bindgen");
    reveal_strlit("___finch_bindgen");
    let d = "___"@;
    let name = joined(fields, d);
    split_of_all_joined(fields, d);
    let rest = fields.skip(1);
    assert(name == fields[0] + d + joined(rest, d));
    assert(rest[0] == fields[1]);
    assert(joined(rest, d) == rest[0] + d + joined(rest.skip(1), d));
    assert(fields[0] =~= Seq::<char>::empty());
    assert(name.subrange(0, 16) =~= "___finch_bindgen"@);
}

/// A field without an underscore is free of the delimiter.
pub proof fn plain_field_is_free(part: Seq<char>)
    requires
        forall|i: int| 0 <= i < part.len() ==> part[i] != '_',
    ensures
        free_of(part, "___"@),
{
    reveal_strlit("___");
    let d = "___"@;
    assert forall|i: int| 0 <= i < part.len() implies !crate::text::occurs_at(part + d, d, i) by {
        if crate::text::occurs_at(part + d, d, i) {
            let sub = (part + d).subrange(i, i + 3);
            assert(sub[0] == d[0]);
            assert((part + d)[i] == sub[0]);
        }
    }
}

/// The fixed fields of the grammar are free of the delimiter: the empty
/// field before the marker, the marker, and the word `class`.
pub proof fn fixed_fields_are_free()
    ensures
        free_of(Seq::<char>::empty(), "___"@),
        free_of("finch_bindgen"@, "___"@),
        free_of("class"@, "___"@),
{
    reveal_strlit("___");
    reveal_strlit("finch_bindgen");
    reveal_strlit("class");
    plain_field_is_free("class"@);
    let d = "___"@;
    let m = "finch_bindgen"@;
    assert forall|i: int| 0 <= i < m.len() implies !crate::text::occurs_at(m + d, d, i) by {
        if crate::text::occurs_at(m + d, d, i) {
            let sub = (m + d).subrange(i, i + 3);
            assert(sub[0] == d[0] && sub[1] == d[1]);
            assert((m + d)[i] == sub[0]);
            assert((m + d)[i + 1] == sub[1]);
            assert(m[5] == '_' && m[6] == 'b');
        }
    }
}

/// The keywords of the grammar select the members: `drop` the destructor,
/// `method` and `method_consume` a method that keeps or consumes its
/// receiver, `static` the constructor where the name is `new` and a static
/// function else, `getter` and `setter` the accessors of a field.
pub proof fn keywords_select_members(fields: Seq<Seq<char>>)
    requires
        fields.len() >= 7,
    ensures
        fields[5] == "drop"@ ==> role_of(fields) == RoleModel::Drop,
        fields[5] == "method"@ ==> role_of(fields) == (RoleModel::Method {
            name: fields[6],
            consume: false,
        }),
        fields[5] == "method_consume"@ ==> role_of(fields) == (RoleModel::Method {
            name: fields[6],
            consume: true,
        }),
        fields[5] == "static"@ && fields[6] == "new"@ ==> role_of(fields)
            == RoleModel::Constructor,
        fields[5] == "static"@ && fields[6] != "new"@ ==> role_of(fields) == (RoleModel::Static {
            name: fields[6],
        }),
        fields[5] == "getter"@ ==> role_of(fields) == (RoleModel::Getter { name: fields[6] }),
        fields[5] == "setter"@ ==> role_of(fields) == (RoleModel::Setter { name: fields[6] }),
{
    reveal_strlit("drop");
    reveal_strlit("method");
    reveal_strlit("method_consume");
    reveal_strlit("static");
    reveal_strlit("getter");
    reveal_strlit("setter");
    assert("drop"@.len() == 4);
    assert("method"@.len() == 6 && "method"@[0] == 'm');
    assert("method_consume"@.len() == 14);
    assert("static"@.len() == 6 && "static"@[0] == 's' && "static"@[1] == 't');
    assert("getter"@.len() == 6 && "getter"@[0] == 'g');
    assert("setter"@.len() == 6 && "setter"@[0] == 's' && "setter"@[1] == 'e');
}

} // verus!
