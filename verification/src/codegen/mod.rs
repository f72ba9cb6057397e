//! The source generator.

pub mod doc;
pub mod enumeration;
pub mod equals;
pub mod immutable;
pub mod json;
pub mod laws;
pub mod mutable;
pub mod ready;
pub mod shapes;
pub mod union;
pub mod util;

use crate::codegen::enumeration::enum_text;
use crate::codegen::immutable::immutable_class_text;
use crate::codegen::mutable::mutable_class_text;
use crate::codegen::ready::{class_ready, enum_ready, library_ready, union_ready};
use crate::codegen::union::union_class_text;
use crate::context::Context;
use crate::model::view::{LibraryView, verbatim_of};
use vstd::prelude::*;
use vstd::string::StringExecFns;

verus! {

/// The text as it stands, if there is one.
pub open spec fn verbatim_text(text: Option<Seq<char>>) -> Seq<char> {
    match text {
        Some(t) => t,
        None => Seq::empty(),
    }
}

/// The line feed that parts the preamble from what is generated, where
/// there is a preamble.
pub open spec fn preamble_end_text(preamble: Option<Seq<char>>) -> Seq<char> {
    match preamble {
        Some(_) => "\n"@,
        None => Seq::empty(),
    }
}

/// Everything that is generated from the declarations: every
/// free-standing class with its builder; every union with its members;
/// every enum.
pub open spec fn declarations_text(lib: LibraryView) -> Seq<char> {
    classes_text(lib, lib.classes.len() as int) + unions_text(lib, lib.unions.len() as int)
        + enums_text(lib, lib.enums.len() as int)
}

/// The value class and the builder of each of the first `n` free-standing
/// classes.
pub open spec fn classes_text(lib: LibraryView, n: int) -> Seq<char>
    decreases n,
{
    if n <= 0 {
        Seq::empty()
    } else {
        classes_text(lib, n - 1) + immutable_class_text(lib, lib.classes[n - 1], None)
            + mutable_class_text(lib, lib.classes[n - 1], None)
    }
}

/// What is generated for the first `n` unions.
pub open spec fn unions_text(lib: LibraryView, n: int) -> Seq<char>
    decreases n,
{
    if n <= 0 {
        Seq::empty()
    } else {
        unions_text(lib, n - 1) + union_class_text(lib, lib.unions[n - 1])
    }
}

/// The declarations of the first `n` enums.
pub open spec fn enums_text(lib: LibraryView, n: int) -> Seq<char>
    decreases n,
{
    if n <= 0 {
        Seq::empty()
    } else {
        enums_text(lib, n - 1) + enum_text(lib, lib.enums[n - 1])
    }
}

/// The Dart source that is generated for a library: the preamble as it
/// stands, with a line feed behind it; every free-standing class with its
/// builder; every union with its members; every enum; the postamble as it
/// stands.
pub open spec fn generated_text(lib: LibraryView) -> Seq<char> {
    verbatim_text(lib.preamble) + preamble_end_text(lib.preamble) + declarations_text(lib)
        + verbatim_text(lib.postamble)
}

fn verbatim(text: &Option<String>) -> (out: String)
    ensures
        out@ == verbatim_text(verbatim_of(*text)),
{
    let mut out = String::new();
    if let Some(t) = text {
        out.append(t.as_str());
    }
    assert(out@ =~= verbatim_text(verbatim_of(*text)));
    out
}

impl Context {
    fn codegen_classes(&self) -> (out: String)
        requires
            library_ready(self.library@),
        ensures
            out@ == classes_text(self.library@, self.library.classes@.len() as int),
    {
        let mut out = String::new();
        let mut i: usize = 0;
        while i < self.library.classes.len()
            invariant
                i <= self.library.classes.len(),
                library_ready(self.library@),
                out@ == classes_text(self.library@, i as int),
            decreases self.library.classes.len() - i,
        {
            assert(self.library@.classes[i as int] == self.library.classes@[i as int]@);
            assert(class_ready(self.library@.classes[i as int]));
            let ghost before = out@;
            let class = &self.library.classes[i];
            let value = self.codegen_immutable_class(class, None);
            let builder = self.codegen_mutable_class(class, None);
            out.append(value.as_str());
            out.append(builder.as_str());
            assert(out@ == before + value@ + builder@);
            i = i + 1;
        }
        out
    }

    fn codegen_unions(&self) -> (out: String)
        requires
            library_ready(self.library@),
        ensures
            out@ == unions_text(self.library@, self.library.unions@.len() as int),
    {
        let mut out = String::new();
        let mut i: usize = 0;
        while i < self.library.unions.len()
            invariant
                i <= self.library.unions.len(),
                library_ready(self.library@),
                out@ == unions_text(self.library@, i as int),
            decreases self.library.unions.len() - i,
        {
            assert(self.library@.unions[i as int] == self.library.unions@[i as int]@);
            assert(union_ready(self.library@.unions[i as int]));
            let text = self.codegen_union_class(&self.library.unions[i]);
            out.append(text.as_str());
            i = i + 1;
        }
        out
    }

    fn codegen_enums(&self) -> (out: String)
        requires
            library_ready(self.library@),
        ensures
            out@ == enums_text(self.library@, self.library.enums@.len() as int),
    {
        let mut out = String::new();
        let mut i: usize = 0;
        while i < self.library.enums.len()
            invariant
                i <= self.library.enums.len(),
                library_ready(self.library@),
                out@ == enums_text(self.library@, i as int),
            decreases self.library.enums.len() - i,
        {
            assert(self.library@.enums[i as int] == self.library.enums@[i as int]@);
            assert(enum_ready(self.library@.enums[i as int]));
            let text = self.codegen_enum(&self.library.enums[i]);
            out.append(text.as_str());
            i = i + 1;
        }
        out
    }

    /// Generates the Dart source for the document. The text is not yet
    /// formatted.
    pub fn codegen(&self) -> (out: String)
        requires
            library_ready(self.library@),
        ensures
            out@ == generated_text(self.library@),
    {
        let preamble = verbatim(&self.library.preamble);
        let classes = self.codegen_classes();
        let unions = self.codegen_unions();
        let enums = self.codegen_enums();
        let postamble = verbatim(&self.library.postamble);
        let mut out = String::new();
        out.append(preamble.as_str());
        if self.library.preamble.is_some() {
            out.append("\n");
        }
        out.append(classes.as_str());
        out.append(unions.as_str());
        out.append(enums.as_str());
        out.append(postamble.as_str());
        assert(out@ =~= generated_text(self.library@));
        out
    }

    /// Generates the Dart source for the document if code can be
    /// generated for it, and nothing otherwise.
    pub fn generate(&self) -> (out: Option<String>)
        ensures
            out is Some <==> library_ready(self.library@),
            out is Some ==> out->0@ == generated_text(self.library@),
    {
        if self.can_generate() {
            Some(self.codegen())
        } else {
            None
        }
    }
}

} // verus!
