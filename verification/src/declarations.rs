//! The `cpp` declarations of a crate: closures, classes and verbatim snippets.

use crate::text::views;
use vstd::prelude::*;

verus! {

/// A variable that a closure captures.
pub struct Capture {
    /// Whether the closure may change the variable.
    pub mutable: bool,
    /// Name of the variable.
    pub name: String,
    /// C++ type of the variable.
    pub cpp: String,
}

/// The model of a [`Capture`].
pub struct CaptureView {
    pub mutable: bool,
    pub name: Seq<char>,
    pub cpp: Seq<char>,
}

impl View for Capture {
    type V = CaptureView;

    open spec fn view(&self) -> CaptureView {
        CaptureView { mutable: self.mutable, name: self.name@, cpp: self.cpp@ }
    }
}

impl Capture {
    fn same(&self, other: &Capture) -> (equal: bool)
        ensures
            equal == (self@ == other@),
    {
        self.mutable == other.mutable && self.name == other.name && self.cpp == other.cpp
    }
}

/// The signature of a closure: what tells two closures apart.
pub struct ClosureSig {
    /// The captured variables, in order.
    pub captures: Vec<Capture>,
    /// C++ type of the result; `void` for none.
    pub cpp: String,
    /// The body of the closure, with its spacing normalized.
    pub std_body: String,
}

/// The model of a [`ClosureSig`].
#[verifier::ext_equal]
pub struct ClosureSigView {
    pub captures: Seq<CaptureView>,
    pub cpp: Seq<char>,
    pub std_body: Seq<char>,
}

impl View for ClosureSig {
    type V = ClosureSigView;

    open spec fn view(&self) -> ClosureSigView {
        ClosureSigView {
            captures: self.captures@.map_values(|c: Capture| c@),
            cpp: self.cpp@,
            std_body: self.std_body@,
        }
    }
}

impl ClosureSig {
    /// Whether both signatures agree in every capture, in the result type and in the body.
    pub fn same(&self, other: &ClosureSig) -> (equal: bool)
        ensures
            equal == (self@ == other@),
    {
        if self.captures.len() != other.captures.len() {
            assert(self@.captures.len() != other@.captures.len());
            return false;
        }
        let mut i: usize = 0;
        while i < self.captures.len()
            invariant
                i <= self.captures.len(),
                self.captures.len() == other.captures.len(),
                forall|j: int|
                    0 <= j < i ==> self@.captures[j] == #[trigger] other@.captures[j],
            decreases self.captures.len() - i,
        {
            if !self.captures[i].same(&other.captures[i]) {
                assert(self@.captures[i as int] != other@.captures[i as int]);
                return false;
            }
            i += 1;
        }
        assert(self@.captures =~= other@.captures);
        self.cpp == other.cpp && self.std_body == other.std_body
    }
}

/// A closure written in C++.
pub struct Closure {
    pub sig: ClosureSig,
    /// The C++ text of the body.
    pub body_str: String,
    /// Where the callbacks of this closure start in the callback table.
    pub callback_offset: u32,
    /// Hash of the signature. It keys the metadata of the closure.
    pub name_hash: u64,
    /// Name of the C++ function that runs the closure.
    pub extern_name: String,
}

/// The model of a [`Closure`].
#[verifier::ext_equal]
pub struct ClosureView {
    pub sig: ClosureSigView,
    pub body_str: Seq<char>,
    pub callback_offset: u32,
    pub name_hash: u64,
    pub extern_name: Seq<char>,
}

impl View for Closure {
    type V = ClosureView;

    open spec fn view(&self) -> ClosureView {
        ClosureView {
            sig: self.sig@,
            body_str: self.body_str@,
            callback_offset: self.callback_offset,
            name_hash: self.name_hash,
            extern_name: self.extern_name@,
        }
    }
}

/// A C++ class made available to Rust.
pub struct Class {
    /// C++ type of the class.
    pub cpp: String,
    /// Line directive, with its line end, for the place of the declaration; may be empty.
    pub line: String,
    /// Hash of the class. It keys the metadata and names the helper functions of the class.
    pub name_hash: u64,
    /// The traits that the declaration derives.
    pub derived_traits: Vec<String>,
}

/// The model of a [`Class`].
#[verifier::ext_equal]
pub struct ClassView {
    pub cpp: Seq<char>,
    pub line: Seq<char>,
    pub name_hash: u64,
    pub derived_traits: Seq<Seq<char>>,
}

impl View for Class {
    type V = ClassView;

    open spec fn view(&self) -> ClassView {
        ClassView {
            cpp: self.cpp@,
            line: self.line@,
            name_hash: self.name_hash,
            derived_traits: views(self.derived_traits@),
        }
    }
}

impl Class {
    /// Whether the declaration derives the trait named `name`.
    pub fn derives(&self, name: &str) -> (found: bool)
        ensures
            found == self@.derived_traits.contains(name@),
    {
        let wanted = name.to_owned();
        let mut i: usize = 0;
        while i < self.derived_traits.len()
            invariant
                i <= self.derived_traits.len(),
                wanted@ == name@,
                forall|j: int| 0 <= j < i ==> #[trigger] self@.derived_traits[j] != name@,
            decreases self.derived_traits.len() - i,
        {
            if self.derived_traits[i] == wanted {
                assert(self@.derived_traits[i as int] == name@);
                return true;
            }
            i += 1;
        }
        false
    }
}

/// All `cpp` declarations of a crate.
pub struct Declarations {
    pub closures: Vec<Closure>,
    pub classes: Vec<Class>,
    /// C++ text that is copied as it is.
    pub snippets: String,
    /// Number of callbacks into Rust in all closures.
    pub callbacks_count: u32,
}

/// The model of [`Declarations`].
#[verifier::ext_equal]
pub struct DeclarationsView {
    pub closures: Seq<ClosureView>,
    pub classes: Seq<ClassView>,
    pub snippets: Seq<char>,
    pub callbacks_count: u32,
}

impl View for Declarations {
    type V = DeclarationsView;

    open spec fn view(&self) -> DeclarationsView {
        DeclarationsView {
            closures: self.closures@.map_values(|c: Closure| c@),
            classes: self.classes@.map_values(|c: Class| c@),
            snippets: self.snippets@,
            callbacks_count: self.callbacks_count,
        }
    }
}

} // verus!
