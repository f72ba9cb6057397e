//! Walking the schema model, and the options that are looked up in
//! layers: on the declaration itself, then in the library's defaults,
//! then a built-in fallback.

use crate::casing::{case_converted, to_case};
use crate::model::options::{FieldOptions, RenameCase};
use crate::model::value::{Literal, Radix, Value};
use crate::model::view::{
    ClassView, FieldView, LibraryView, LiteralView, refers_to, TextView, UnionOptionsView,
    UnionView, ValueView,
};
use crate::model::{Class, Field, Library, Union};
use crate::span::SpannedScalar;
use crate::text::same_text;
use vstd::prelude::*;
use vstd::string::StringExecFns;

verus! {

/// The first of the two layers that holds a value, or the fallback.
pub open spec fn layered<T>(local: Option<T>, section: Option<T>, fallback: T) -> T {
    match local {
        Some(value) => value,
        None => match section {
            Some(value) => value,
            None => fallback,
        },
    }
}

/// The first of the two layers that holds a value.
pub open spec fn first_of<T>(local: Option<T>, section: Option<T>) -> Option<T> {
    match local {
        Some(value) => Some(value),
        None => section,
    }
}

/// The effective value of an option: what the declaration says, else what
/// the matching section of the defaults says, else the fallback.
pub fn effective<T: Copy>(local: Option<T>, section: Option<T>, fallback: T) -> (value: T)
    ensures
        value == layered(local, section, fallback),
{
    match local {
        Some(value) => value,
        None => match section {
            Some(value) => value,
            None => fallback,
        },
    }
}

/// The value of an option that has no fallback: what the declaration says,
/// else what the matching section of the defaults says, if either says
/// anything.
pub fn first_given<T: Copy>(local: Option<T>, section: Option<T>) -> (value: Option<T>)
    ensures
        value == first_of(local, section),
{
    match local {
        Some(value) => Some(value),
        None => section,
    }
}

/// The value of an optional scalar, without its place in the document.
pub open spec fn value_of<T>(scalar: Option<SpannedScalar<T>>) -> Option<T> {
    match scalar {
        Some(s) => Some(s.value),
        None => None,
    }
}

/// The characters of an optional text scalar.
pub open spec fn chars_of_scalar(scalar: Option<TextView>) -> Option<Seq<char>> {
    match scalar {
        Some(s) => Some(s.value),
        None => None,
    }
}

fn scalar_value<T: Copy>(scalar: &Option<SpannedScalar<T>>) -> (value: Option<T>)
    ensures
        value == value_of(*scalar),
{
    match scalar {
        Some(s) => Some(s.value),
        None => None,
    }
}

/// The classes of all unions up to, not including, union `n`.
pub open spec fn members_upto(unions: Seq<UnionView>, n: int) -> Seq<ClassView>
    decreases n,
{
    if n <= 0 {
        Seq::empty()
    } else {
        members_upto(unions, n - 1) + unions[n - 1].classes
    }
}

/// The fields of all classes up to, not including, class `n`.
pub open spec fn fields_upto(classes: Seq<ClassView>, n: int) -> Seq<FieldView>
    decreases n,
{
    if n <= 0 {
        Seq::empty()
    } else {
        fields_upto(classes, n - 1) + classes[n - 1].fields
    }
}

/// The literal defaults of all fields up to, not including, field `n`.
pub open spec fn raw_values_upto(fields: Seq<FieldView>, n: int) -> Seq<ValueView>
    decreases n,
{
    if n <= 0 {
        Seq::empty()
    } else {
        match fields[n - 1].defaults_to {
            Some(value) => raw_values_upto(fields, n - 1).push(value),
            None => raw_values_upto(fields, n - 1),
        }
    }
}

/// The text of a literal as a Dart constant. Integers are decimal or
/// hexadecimal.
pub open spec fn literal_text(literal: LiteralView) -> Seq<char> {
    match literal {
        LiteralView::Null => "null"@,
        LiteralView::Bool(true) => "true"@,
        LiteralView::Bool(false) => "false"@,
        LiteralView::Int(Radix::Hex, digits) => "0x"@ + digits,
        LiteralView::Int(_, digits) => digits,
        LiteralView::Decimal(digits) => digits,
        LiteralView::Str(text) => quoted(text),
    }
}

/// `text` between double quotes.
pub open spec fn quoted(text: Seq<char>) -> Seq<char> {
    "\""@ + text + "\""@
}

/// `text` between double quotes.
pub fn quote(text: &str) -> (q: String)
    ensures
        q@ == quoted(text@),
{
    let mut q = String::from_str("\"");
    q.append(text);
    q.append("\"");
    q
}

/// Renders a literal of the schema language as a Dart constant.
pub fn format_dart_literal_const(value: &Value) -> (text: String)
    requires
        !value.literal.has_unsupported_radix(),
    ensures
        text@ == literal_text(value@.literal),
{
    match &value.literal {
        Literal::Null => String::from_str("null"),
        Literal::Bool(b) => if *b {
            String::from_str("true")
        } else {
            String::from_str("false")
        },
        Literal::Int(radix, digits) => match radix {
            Radix::Hex => {
                let mut text = String::from_str("0x");
                text.append(digits.as_str());
                text
            },
            _ => digits.clone(),
        },
        Literal::Decimal(digits) => digits.clone(),
        Literal::Str(text) => quote(text.as_str()),
    }
}

impl LibraryView {
    /// The union section of the defaults, if there is one.
    pub open spec fn union_defaults(self) -> Option<UnionOptionsView> {
        match self.defaults {
            Some(d) => d.union,
            None => None,
        }
    }

    /// The field section of the defaults, if there is one.
    pub open spec fn field_defaults(self) -> Option<FieldOptions> {
        match self.defaults {
            Some(d) => d.field,
            None => None,
        }
    }

    /// The classes that are members of a union, union by union.
    pub open spec fn member_classes(self) -> Seq<ClassView> {
        members_upto(self.unions, self.unions.len() as int)
    }

    /// Every class: the free-standing ones first, then the members of each
    /// union.
    pub open spec fn every_class(self) -> Seq<ClassView> {
        self.classes + self.member_classes()
    }

    /// The names of every class, then of every union.
    pub open spec fn builder_names(self) -> Seq<TextView> {
        Seq::new(self.every_class().len(), |i: int| self.every_class()[i].name) + Seq::new(
            self.unions.len(),
            |i: int| self.unions[i].name,
        )
    }

    /// The names of every class, of every union, and of every enum.
    pub open spec fn every_type_name(self) -> Seq<TextView> {
        self.builder_names() + Seq::new(self.enums.len(), |i: int| self.enums[i].name)
    }

    /// The fields of every class.
    pub open spec fn every_field(self) -> Seq<FieldView> {
        fields_upto(self.every_class(), self.every_class().len() as int)
    }

    /// The literal defaults of every field.
    pub open spec fn every_raw_value(self) -> Seq<ValueView> {
        raw_values_upto(self.every_field(), self.every_field().len() as int)
    }

    /// Whether a builder is generated for the type of that name: it is a
    /// class or a union of this library.
    pub open spec fn has_builder(self, name: Seq<char>) -> bool {
        exists|i: int|
            0 <= i < self.builder_names().len() && (#[trigger] self.builder_names()[i]).value
                == name
    }

    /// Whether the library declares an enum of that name.
    pub open spec fn has_enum(self, name: Seq<char>) -> bool {
        exists|i: int| 0 <= i < self.enums.len() && (#[trigger] self.enums[i]).name.value == name
    }

    /// The casing that the keys of `class` are rewritten into, if any.
    pub open spec fn key_case(self, class: ClassView) -> Option<RenameCase> {
        first_of(
            value_of(class.json_key_case),
            match self.field_defaults() {
                Some(f) => value_of(f.json_key_case),
                None => None,
            },
        )
    }

    /// The key under which `field` of `class` is encoded.
    pub open spec fn json_key(self, class: ClassView, field: FieldView) -> Seq<char> {
        match field.json_key {
            Some(key) => key.value,
            None => match self.key_case(class) {
                Some(case) => case_converted(field.name.value, case),
                None => field.name.value,
            },
        }
    }

    /// The key under which the members of `union` encode their
    /// discriminant.
    pub open spec fn discriminant_key(self, union: UnionView) -> Seq<char> {
        layered(
            chars_of_scalar(union.json_discriminant),
            match self.union_defaults() {
                Some(u) => chars_of_scalar(u.json_discriminant),
                None => None,
            },
            "type"@,
        )
    }

    /// Whether `union` is generated as a sealed class.
    pub open spec fn sealed(self, union: UnionView) -> bool {
        layered(
            value_of(union.sealed),
            match self.union_defaults() {
                Some(u) => value_of(u.sealed),
                None => None,
            },
            false,
        )
    }

    /// The Dart constant by which `class` is told apart from the other
    /// members of `union`.
    pub open spec fn discriminant_value(self, union: UnionView, class: ClassView) -> Seq<char> {
        match class.json_discriminant_value {
            Some(value) => literal_text(value.literal),
            None => quoted(
                match union.json_discriminant_value_case {
                    Some(case) => case_converted(class.name.value, case.value),
                    None => class.name.value,
                },
            ),
        }
    }
}

impl Library {
    /// Every class: the free-standing ones first, then the members of each
    /// union.
    pub fn all_classes(&self) -> (all: Vec<&Class>)
        ensures
            refers_to(all@, self@.every_class()),
    {
        let mut all: Vec<&Class> = Vec::new();
        let mut i: usize = 0;
        while i < self.classes.len()
            invariant
                i <= self.classes.len(),
                refers_to(all@, self@.classes.take(i as int)),
            decreases self.classes.len() - i,
        {
            all.push(&self.classes[i]);
            i = i + 1;
        }
        assert(self@.classes.take(i as int) =~= self@.classes);
        let mut u: usize = 0;
        while u < self.unions.len()
            invariant
                u <= self.unions.len(),
                refers_to(all@, self@.classes + members_upto(self@.unions, u as int)),
            decreases self.unions.len() - u,
        {
            let union = &self.unions[u];
            let ghost before = self@.classes + members_upto(self@.unions, u as int);
            let mut c: usize = 0;
            while c < union.classes.len()
                invariant
                    c <= union.classes.len(),
                    refers_to(all@, before + union@.classes.take(c as int)),
                decreases union.classes.len() - c,
            {
                all.push(&union.classes[c]);
                c = c + 1;
            }
            assert(union@.classes.take(c as int) =~= union@.classes);
            assert(before + union@.classes =~= self@.classes + members_upto(self@.unions, u + 1));
            u = u + 1;
        }
        all
    }

    /// The names of every class, then of every union.
    pub fn class_and_union_names(&self) -> (names: Vec<&SpannedScalar<String>>)
        ensures
            refers_to(names@, self@.builder_names()),
    {
        let classes = self.all_classes();
        let mut names: Vec<&SpannedScalar<String>> = Vec::new();
        let ghost class_names = Seq::new(
            self@.every_class().len(),
            |i: int| self@.every_class()[i].name,
        );
        let ghost union_names = Seq::new(self@.unions.len(), |i: int| self@.unions[i].name);
        let mut i: usize = 0;
        while i < classes.len()
            invariant
                i <= classes.len(),
                refers_to(classes@, self@.every_class()),
                class_names == Seq::new(
                    self@.every_class().len(),
                    |i: int| self@.every_class()[i].name,
                ),
                refers_to(names@, class_names.take(i as int)),
            decreases classes.len() - i,
        {
            names.push(&classes[i].name);
            i = i + 1;
        }
        assert(class_names.take(i as int) =~= class_names);
        let mut u: usize = 0;
        while u < self.unions.len()
            invariant
                u <= self.unions.len(),
                union_names == Seq::new(self@.unions.len(), |i: int| self@.unions[i].name),
                refers_to(names@, class_names + union_names.take(u as int)),
            decreases self.unions.len() - u,
        {
            names.push(&self.unions[u].name);
            u = u + 1;
        }
        assert(union_names.take(u as int) =~= union_names);
        names
    }

    /// The names of every class, of every union, and of every enum.
    pub fn type_names(&self) -> (names: Vec<&SpannedScalar<String>>)
        ensures
            refers_to(names@, self@.every_type_name()),
    {
        let mut names = self.class_and_union_names();
        let ghost enum_names = Seq::new(self@.enums.len(), |i: int| self@.enums[i].name);
        let mut e: usize = 0;
        while e < self.enums.len()
            invariant
                e <= self.enums.len(),
                enum_names == Seq::new(self@.enums.len(), |i: int| self@.enums[i].name),
                refers_to(names@, self@.builder_names() + enum_names.take(e as int)),
            decreases self.enums.len() - e,
        {
            names.push(&self.enums[e].name);
            e = e + 1;
        }
        assert(enum_names.take(e as int) =~= enum_names);
        names
    }

    /// The fields of every class.
    pub fn all_fields(&self) -> (all: Vec<&Field>)
        ensures
            refers_to(all@, self@.every_field()),
    {
        let classes = self.all_classes();
        let mut all: Vec<&Field> = Vec::new();
        let mut i: usize = 0;
        while i < classes.len()
            invariant
                i <= classes.len(),
                refers_to(classes@, self@.every_class()),
                refers_to(all@, fields_upto(self@.every_class(), i as int)),
            decreases classes.len() - i,
        {
            let class = classes[i];
            let ghost before = fields_upto(self@.every_class(), i as int);
            let mut f: usize = 0;
            while f < class.fields.len()
                invariant
                    f <= class.fields.len(),
                    refers_to(all@, before + class@.fields.take(f as int)),
                decreases class.fields.len() - f,
            {
                all.push(&class.fields[f]);
                f = f + 1;
            }
            assert(class@.fields.take(f as int) =~= class@.fields);
            i = i + 1;
        }
        all
    }

    /// The literal defaults of every field.
    pub fn all_raw_values(&self) -> (all: Vec<&Value>)
        ensures
            refers_to(all@, self@.every_raw_value()),
    {
        let fields = self.all_fields();
        let mut all: Vec<&Value> = Vec::new();
        let mut i: usize = 0;
        while i < fields.len()
            invariant
                i <= fields.len(),
                refers_to(fields@, self@.every_field()),
                refers_to(all@, raw_values_upto(self@.every_field(), i as int)),
            decreases fields.len() - i,
        {
            match &fields[i].defaults_to {
                Some(value) => {
                    all.push(value);
                },
                None => {},
            }
            i = i + 1;
        }
        all
    }

    /// Whether a builder is generated for the type of that name: it is a
    /// class or a union of this library.
    pub fn type_has_builder(&self, name: &str) -> (has: bool)
        ensures
            has == self@.has_builder(name@),
    {
        let names = self.class_and_union_names();
        let mut i: usize = 0;
        while i < names.len()
            invariant
                i <= names.len(),
                refers_to(names@, self@.builder_names()),
                forall|j: int| 0 <= j < i ==> (#[trigger] self@.builder_names()[j]).value != name@,
            decreases names.len() - i,
        {
            if same_text(names[i].value.as_str(), name) {
                return true;
            }
            i = i + 1;
        }
        false
    }

    /// Whether the library declares an enum of that name.
    pub fn declares_enum(&self, name: &str) -> (has: bool)
        ensures
            has == self@.has_enum(name@),
    {
        let mut i: usize = 0;
        while i < self.enums.len()
            invariant
                i <= self.enums.len(),
                forall|j: int| 0 <= j < i ==> (#[trigger] self@.enums[j]).name.value != name@,
            decreases self.enums.len() - i,
        {
            assert(self@.enums[i as int] == self.enums@[i as int]@);
            if same_text(self.enums[i].name.value.as_str(), name) {
                return true;
            }
            i = i + 1;
        }
        false
    }

    /// The key under which `field` of `class` is encoded: the field's own
    /// key if it names one; else its name, rewritten into the casing that
    /// the class or else the defaults ask for, if any.
    pub fn json_key_for(&self, class: &Class, field: &Field) -> (key: String)
        ensures
            key@ == self@.json_key(class@, field@),
    {
        if let Some(key) = &field.json_key {
            return key.value.clone();
        }
        let section = match &self.defaults {
            Some(d) => match &d.field {
                Some(f) => scalar_value(&f.json_key_case),
                None => None,
            },
            None => None,
        };
        match first_given(scalar_value(&class.json_key_case), section) {
            Some(case) => to_case(field.name.value.as_str(), case),
            None => field.name.value.clone(),
        }
    }

    /// The key under which the members of `union` encode their
    /// discriminant: the union's own, else the defaults', else `type`.
    pub fn discriminant_key_for(&self, union: &Union) -> (key: String)
        ensures
            key@ == self@.discriminant_key(union@),
    {
        if let Some(key) = &union.json_discriminant {
            return key.value.clone();
        }
        if let Some(d) = &self.defaults {
            if let Some(u) = &d.union {
                if let Some(key) = &u.json_discriminant {
                    return key.value.clone();
                }
            }
        }
        String::from_str("type")
    }

    /// Whether `union` is generated as a sealed class: what the union
    /// says, else what the defaults say, else no.
    pub fn is_sealed(&self, union: &Union) -> (sealed: bool)
        ensures
            sealed == self@.sealed(union@),
    {
        let section = match &self.defaults {
            Some(d) => match &d.union {
                Some(u) => scalar_value(&u.sealed),
                None => None,
            },
            None => None,
        };
        effective(scalar_value(&union.sealed), section, false)
    }

    /// The Dart constant by which `class` is told apart from the other
    /// members of `union`: the literal the class names, else its name,
    /// rewritten into the casing that the union asks for, if any, between
    /// double quotes.
    pub fn discriminant_value_for(&self, union: &Union, class: &Class) -> (value: String)
        requires
            class.json_discriminant_value is Some
                ==> !class.json_discriminant_value->0.literal.has_unsupported_radix(),
        ensures
            value@ == self@.discriminant_value(union@, class@),
    {
        if let Some(value) = &class.json_discriminant_value {
            return format_dart_literal_const(value);
        }
        match &union.json_discriminant_value_case {
            Some(case) => {
                let name = to_case(class.name.value.as_str(), case.value);
                quote(name.as_str())
            },
            None => quote(class.name.value.as_str()),
        }
    }
}

} // verus!
