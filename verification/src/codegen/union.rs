//! Unions: an abstract base class, the base class of the builders, and
//! the member classes.

use crate::codegen::immutable::immutable_class_text;
use crate::codegen::mutable::mutable_class_text;
use crate::codegen::ready::{class_ready, union_ready};
use crate::codegen::util::{optional_doc, optional_doc_text, optional_line, optional_line_text};
use crate::context::Context;
use crate::model::util::quoted;
use crate::model::view::{ClassView, LibraryView, TextView, UnionView};
use crate::model::{Class, Union};
use crate::text::{braced, braced_text};
use vstd::prelude::*;
use vstd::string::StringExecFns;

verus! {

/// The annotations that the defaults give to every union.
pub open spec fn union_annotations(lib: LibraryView) -> Option<TextView> {
    match lib.union_defaults() {
        Some(u) => u.annotations,
        None => None,
    }
}

/// The annotations that the defaults give to the builder base of every
/// union.
pub open spec fn union_builder_annotations(lib: LibraryView) -> Option<TextView> {
    match lib.union_defaults() {
        Some(u) => u.builder_annotations,
        None => None,
    }
}

/// The modifiers of the two base classes of a union.
pub open spec fn modifiers_text(lib: LibraryView, union: UnionView) -> Seq<char> {
    if lib.sealed(union) {
        "sealed"@
    } else {
        "abstract final"@
    }
}

/// The arm of the decoding switch that hands the encoded map to the
/// decoder of `class` where the discriminant is `value`.
pub open spec fn decode_arm_with(value: Seq<char>, class: ClassView) -> Seq<char> {
    value + " => "@ + class.name.value + ".fromJson(json),\n"@
}

/// The arm of the decoding switch for the member `class` of `union`.
pub open spec fn decode_arm_text(
    lib: LibraryView,
    union: UnionView,
    class: ClassView,
) -> Seq<char> {
    decode_arm_with(lib.discriminant_value(union, class), class)
}

/// The arms of the decoding switch for the first `n` members.
pub open spec fn decode_arms_text(lib: LibraryView, union: UnionView, n: int) -> Seq<char>
    decreases n,
{
    if n <= 0 {
        Seq::empty()
    } else {
        decode_arms_text(lib, union, n - 1) + decode_arm_text(lib, union, union.classes[n - 1])
    }
}

/// The arm of the decoding switch that refuses every other discriminant.
pub open spec fn unknown_arm_text() -> Seq<char> {
    "final other => throw ArgumentError(\"unknown discriminant: $other\"),\n"@
}

/// The decoding factory of a union: a switch on the encoded
/// discriminant, with one arm for each member and one that refuses
/// everything else.
pub open spec fn decode_switch_text(lib: LibraryView, union: UnionView) -> Seq<char> {
    "factory "@ + union.name.value + ".fromJson(Map<String, dynamic> json) => switch (json["@
        + quoted(lib.discriminant_key(union)) + "]) {\n"@ + decode_arms_text(
        lib,
        union,
        union.classes.len() as int,
    ) + unknown_arm_text() + "};\n"@
}

/// The first `n` pieces of extra text, each on a line of its own.
pub open spec fn union_extras_text(extras: Seq<TextView>, n: int) -> Seq<char>
    decreases n,
{
    if n <= 0 {
        Seq::empty()
    } else {
        union_extras_text(extras, n - 1) + extras[n - 1].value + "\n"@
    }
}

/// What stands between the braces of the base class of a union.
pub open spec fn union_base_body_text(lib: LibraryView, union: UnionView) -> Seq<char> {
    "const "@ + union.name.value + "();\n"@ + "\n"@ + union.name.value
        + "Builder toBuilder();\n"@ + "\n"@ + "Map<String, dynamic> toJson(); \n"@
        + decode_switch_text(lib, union) + union_extras_text(
        union.extra_dart,
        union.extra_dart.len() as int,
    )
}

/// The body of the base class of a union, and the base class of its
/// builders.
#[verifier::opaque]
pub open spec fn union_body_text(lib: LibraryView, union: UnionView) -> Seq<char> {
    braced_text(union_base_body_text(lib, union)) + optional_line_text(
        union_builder_annotations(lib),
    ) + modifiers_text(lib, union) + " class "@ + union.name.value + "Builder \n"@ + braced_text(
        union.name.value + " build();\n"@,
    )
}

/// The value class and the builder of each of the first `n` members.
pub open spec fn members_text(lib: LibraryView, union: UnionView, n: int) -> Seq<char>
    decreases n,
{
    if n <= 0 {
        Seq::empty()
    } else {
        members_text(lib, union, n - 1) + immutable_class_text(
            lib,
            union.classes[n - 1],
            Some(union),
        ) + mutable_class_text(lib, union.classes[n - 1], Some(union))
    }
}

/// Everything that is generated for a union.
#[verifier::opaque]
pub open spec fn union_class_text(lib: LibraryView, union: UnionView) -> Seq<char> {
    optional_doc_text(union.docs) + optional_line_text(union_annotations(lib)) + modifiers_text(
        lib,
        union,
    ) + " class "@ + union.name.value + " "@ + union_body_text(lib, union) + members_text(
        lib,
        union,
        union.classes.len() as int,
    )
}

/// The arm of the decoding switch that hands the encoded map to the
/// decoder of `class` where the discriminant is `value`.
pub fn decode_arm(value: &str, class: &Class) -> (out: String)
    ensures
        out@ == decode_arm_with(value@, class@),
{
    let mut out = String::from_str(value);
    out.append(" => ");
    out.append(class.name.value.as_str());
    out.append(".fromJson(json),\n");
    out
}

impl Context {
    fn modifiers(&self, union: &Union) -> (out: String)
        ensures
            out@ == modifiers_text(self.library@, union@),
    {
        if self.library.is_sealed(union) {
            String::from_str("sealed")
        } else {
            String::from_str("abstract final")
        }
    }

    fn decode_switch(&self, union: &Union) -> (out: String)
        requires
            union_ready(union@),
        ensures
            out@ == decode_switch_text(self.library@, union@),
    {
        let mut arms = String::new();
        let mut i: usize = 0;
        while i < union.classes.len()
            invariant
                i <= union.classes.len(),
                union_ready(union@),
                arms@ == decode_arms_text(self.library@, union@, i as int),
            decreases union.classes.len() - i,
        {
            assert(union@.classes[i as int] == union.classes@[i as int]@);
            assert(class_ready(union@.classes[i as int]));
            let class = &union.classes[i];
            let value = self.library.discriminant_value_for(union, class);
            let arm = decode_arm(value.as_str(), class);
            arms.append(arm.as_str());
            i = i + 1;
        }
        let key = self.library.discriminant_key_for(union);
        let mut out = String::new();
        out.append("factory ");
        out.append(union.name.value.as_str());
        out.append(".fromJson(Map<String, dynamic> json) => switch (json[");
        out.append("\"");
        out.append(key.as_str());
        out.append("\"");
        out.append("]) {\n");
        out.append(arms.as_str());
        out.append("final other => throw ArgumentError(\"unknown discriminant: $other\"),\n");
        out.append("};\n");
        assert(out@ =~= decode_switch_text(self.library@, union@));
        out
    }

    /// The body of the base class of a union: the conversions that every
    /// member has, and the factory that decodes whichever member an
    /// encoded map holds; then the base class of the builders.
    pub fn codegen_body(&self, union: &Union) -> (out: String)
        requires
            union_ready(union@),
        ensures
            out@ == union_body_text(self.library@, union@),
    {
        proof {
            reveal(union_body_text);
        }
        let switch = self.decode_switch(union);
        let mut extras = String::new();
        let mut i: usize = 0;
        while i < union.extra_dart.len()
            invariant
                i <= union.extra_dart.len(),
                extras@ == union_extras_text(union@.extra_dart, i as int),
            decreases union.extra_dart.len() - i,
        {
            let ghost before = extras@;
            extras.append(union.extra_dart[i].value.as_str());
            extras.append("\n");
            assert(extras@ =~= before + union.extra_dart@[i as int].value@ + "\n"@);
            i = i + 1;
        }
        let mut body = String::new();
        body.append("const ");
        body.append(union.name.value.as_str());
        body.append("();\n");
        body.append("\n");
        body.append(union.name.value.as_str());
        body.append("Builder toBuilder();\n");
        body.append("\n");
        body.append("Map<String, dynamic> toJson(); \n");
        body.append(switch.as_str());
        body.append(extras.as_str());
        assert(body@ =~= union_base_body_text(self.library@, union@));
        let shared = match &self.library.defaults {
            Some(d) => match &d.union {
                Some(u) => optional_line(&u.builder_annotations),
                None => String::new(),
            },
            None => String::new(),
        };
        let modifiers = self.modifiers(union);
        let mut build = String::from_str(union.name.value.as_str());
        build.append(" build();\n");
        let mut out = String::new();
        braced(&mut out, body.as_str());
        out.append(shared.as_str());
        out.append(modifiers.as_str());
        out.append(" class ");
        out.append(union.name.value.as_str());
        out.append("Builder \n");
        braced(&mut out, build.as_str());
        assert(out@ =~= union_body_text(self.library@, union@));
        out
    }

    fn members(&self, union: &Union) -> (out: String)
        requires
            union_ready(union@),
        ensures
            out@ == members_text(self.library@, union@, union.classes@.len() as int),
    {
        let mut out = String::new();
        let mut i: usize = 0;
        while i < union.classes.len()
            invariant
                i <= union.classes.len(),
                union_ready(union@),
                out@ == members_text(self.library@, union@, i as int),
            decreases union.classes.len() - i,
        {
            assert(union@.classes[i as int] == union.classes@[i as int]@);
            assert(class_ready(union@.classes[i as int]));
            let ghost before = out@;
            let class = &union.classes[i];
            let value = self.codegen_immutable_class(class, Some(union));
            let builder = self.codegen_mutable_class(class, Some(union));
            out.append(value.as_str());
            out.append(builder.as_str());
            assert(out@ == before + value@ + builder@);
            i = i + 1;
        }
        out
    }

    /// Everything that is generated for a union: its base class, the base
    /// class of its builders, and the value class and the builder of each
    /// member.
    pub fn codegen_union_class(&self, union: &Union) -> (out: String)
        requires
            union_ready(union@),
        ensures
            out@ == union_class_text(self.library@, union@),
    {
        proof {
            reveal(union_class_text);
        }
        let docs = optional_doc(&union.docs);
        let shared = match &self.library.defaults {
            Some(d) => match &d.union {
                Some(u) => optional_line(&u.annotations),
                None => String::new(),
            },
            None => String::new(),
        };
        let modifiers = self.modifiers(union);
        let body = self.codegen_body(union);
        let members = self.members(union);
        let mut out = String::new();
        out.append(docs.as_str());
        out.append(shared.as_str());
        out.append(modifiers.as_str());
        out.append(" class ");
        out.append(union.name.value.as_str());
        out.append(" ");
        out.append(body.as_str());
        out.append(members.as_str());
        assert(out@ =~= docs@ + shared@ + modifiers@ + " class "@ + union.name.value@ + " "@
            + body@ + members@);
        out
    }
}

} // verus!
