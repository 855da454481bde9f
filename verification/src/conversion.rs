//! Conversion policies: how a single argument or return value is spelled on
//! the C++ side of the boundary, and how the idiomatic Rust value is adapted
//! into the raw argument the generated wrapper expects. Both sides dispatch on
//! the same policy value, which keeps the two generated halves in agreement.

use vstd::prelude::*;

verus! {

/// A caller contract violation: the analysis phase handed in an inconsistent
/// description. Such inputs are rejected loudly rather than guessed around,
/// since a wrong signature corrupts memory at the boundary.
#[derive(Debug, PartialEq, Eq)]
pub enum GenError {
    /// A pointer-deriving conversion was applied to a non-pointer type.
    NotAPointer,
    /// A value-parameter conversion was applied to a binding that is not a
    /// simple identifier.
    NonIdentPattern,
    /// A wrapper marked as a method call has no argument to use as receiver.
    ReceiverWithoutArguments,
}

/// Resolves a type identifier to its fully-qualified spelling. Identifiers
/// that the database does not know resolve to themselves.
pub struct TypeDatabase {
    pub entries: Vec<(String, String)>,
}

impl View for TypeDatabase {
    type V = Seq<(Seq<char>, Seq<char>)>;

    open spec fn view(&self) -> Seq<(Seq<char>, Seq<char>)> {
        self.entries@.map_values(|p: (String, String)| (p.0@, p.1@))
    }
}

/// The spelling of `id` under the database: the first entry for `id`, or `id`
/// itself when no entry names it.
pub open spec fn resolve_spec(db: Seq<(Seq<char>, Seq<char>)>, id: Seq<char>) -> Seq<char>
    decreases db.len(),
{
    if db.len() == 0 {
        id
    } else if db[0].0 == id {
        db[0].1
    } else {
        resolve_spec(db.drop_first(), id)
    }
}

impl TypeDatabase {
    /// An empty database: every identifier resolves to itself.
    pub fn new() -> (db: TypeDatabase)
        ensures
            db@ == Seq::<(Seq<char>, Seq<char>)>::empty(),
    {
        let db = TypeDatabase { entries: Vec::new() };
        proof {
            assert(db@ =~= Seq::<(Seq<char>, Seq<char>)>::empty());
        }
        db
    }

    /// Records the fully-qualified spelling of a type identifier.
    pub fn insert(&mut self, id: &str, spelling: &str)
        ensures
            final(self)@ == old(self)@.push((id@, spelling@)),
    {
        self.entries.push((id.to_owned(), spelling.to_owned()));
        proof {
            assert(self@ =~= old(self)@.push((id@, spelling@)));
        }
    }

    /// Resolves a type identifier to its fully-qualified spelling.
    pub fn resolve(&self, id: &str) -> (r: String)
        ensures
            r@ == resolve_spec(self@, id@),
    {
        let id_owned = id.to_owned();
        let mut i: usize = 0;
        proof {
            assert(self@.skip(0) =~= self@);
        }
        while i < self.entries.len()
            invariant
                i <= self.entries.len(),
                id_owned@ == id@,
                resolve_spec(self@.skip(i as int), id@) == resolve_spec(self@, id@),
            decreases self.entries.len() - i,
        {
            proof {
                assert(self@.skip(i as int)[0] == self@[i as int]);
                assert(self@.skip(i as int).drop_first() =~= self@.skip(i + 1));
            }
            if self.entries[i].0 == id_owned {
                return self.entries[i].1.clone();
            }
            i = i + 1;
        }
        proof {
            assert(self@.skip(self@.len() as int) =~= Seq::<(Seq<char>, Seq<char>)>::empty());
        }
        id_owned
    }
}

/// Mathematical value of an [`UnwrappedType`].
pub ghost enum UnwrappedTypeV {
    Plain { id: Seq<char> },
    Pointer { pointee: Seq<char> },
}

/// The underlying type of a value crossing the boundary, as the analysis
/// phase described it: either a plain type identifier or a pointer to one.
pub enum UnwrappedType {
    Plain { id: String },
    Pointer { pointee: String },
}

impl View for UnwrappedType {
    type V = UnwrappedTypeV;

    open spec fn view(&self) -> UnwrappedTypeV {
        match self {
            UnwrappedType::Plain { id } => UnwrappedTypeV::Plain { id: id@ },
            UnwrappedType::Pointer { pointee } => UnwrappedTypeV::Pointer { pointee: pointee@ },
        }
    }
}

/// Mathematical value of a [`RustConversionType`].
pub ghost enum RustConversionTypeV {
    NoConversion,
    FromStr,
    ToBoxedUpHolder { subclass: Seq<char> },
    FromPinMaybeUninitToPtr,
    FromPinMoveRefToPtr,
    FromTypeToPtr,
    FromValueParamToPtr,
}

/// How the Rust-facing type and call-site expression are derived from the
/// underlying type. One tag per value; tags are mutually exclusive.
pub enum RustConversionType {
    /// Pass the value through unchanged.
    NoConversion,
    /// Expose an "into C++ string" generic parameter and convert explicitly.
    FromStr,
    /// Wrap the value in the boxed holder type of the named subclass.
    ToBoxedUpHolder { subclass: String },
    /// Expose a pinned reference to uninitialized memory of the pointee type
    /// and extract the raw pointer.
    FromPinMaybeUninitToPtr,
    /// Expose a pinned move reference of the pointee type and extract a plain
    /// mutable reference from the pin.
    FromPinMoveRefToPtr,
    /// Expose a plain mutable reference to the pointee type; the pointer
    /// coercion is left to the calling context.
    FromTypeToPtr,
    /// Expose a generic value parameter and materialize a scratch holder.
    FromValueParamToPtr,
}

impl View for RustConversionType {
    type V = RustConversionTypeV;

    open spec fn view(&self) -> RustConversionTypeV {
        match self {
            RustConversionType::NoConversion => RustConversionTypeV::NoConversion,
            RustConversionType::FromStr => RustConversionTypeV::FromStr,
            RustConversionType::ToBoxedUpHolder { subclass } => (RustConversionTypeV::ToBoxedUpHolder {
                subclass: subclass@,
            }),
            RustConversionType::FromPinMaybeUninitToPtr => RustConversionTypeV::FromPinMaybeUninitToPtr,
            RustConversionType::FromPinMoveRefToPtr => RustConversionTypeV::FromPinMoveRefToPtr,
            RustConversionType::FromTypeToPtr => RustConversionTypeV::FromTypeToPtr,
            RustConversionType::FromValueParamToPtr => RustConversionTypeV::FromValueParamToPtr,
        }
    }
}

/// Mathematical value of a [`TypeConversionPolicy`].
pub ghost struct TypeConversionPolicyV {
    pub unwrapped_type: UnwrappedTypeV,
    pub rust_conversion: RustConversionTypeV,
}

/// Per-value conversion policy: the underlying type and the tag selecting how
/// the Rust side adapts to it.
pub struct TypeConversionPolicy {
    pub unwrapped_type: UnwrappedType,
    pub rust_conversion: RustConversionType,
}

impl View for TypeConversionPolicy {
    type V = TypeConversionPolicyV;

    open spec fn view(&self) -> TypeConversionPolicyV {
        TypeConversionPolicyV {
            unwrapped_type: self.unwrapped_type@,
            rust_conversion: self.rust_conversion@,
        }
    }
}

/// The C++ spelling of an underlying type under the database.
pub open spec fn spec_cpp_spelling(t: UnwrappedTypeV, db: Seq<(Seq<char>, Seq<char>)>) -> Seq<
    char,
> {
    match t {
        UnwrappedTypeV::Plain { id } => resolve_spec(db, id),
        UnwrappedTypeV::Pointer { pointee } => resolve_spec(db, pointee) + "*"@,
    }
}

/// The Rust spelling of an underlying type.
pub open spec fn spec_rust_spelling(t: UnwrappedTypeV) -> Seq<char> {
    match t {
        UnwrappedTypeV::Plain { id } => id,
        UnwrappedTypeV::Pointer { pointee } => "*mut "@ + pointee,
    }
}

/// The pointee of a pointer type; meaningful only under
/// [`policy_type_ok`]-checked use.
pub open spec fn spec_pointee(t: UnwrappedTypeV) -> Seq<char> {
    match t {
        UnwrappedTypeV::Plain { id } => id,
        UnwrappedTypeV::Pointer { pointee } => pointee,
    }
}

/// Whether the tag derives the Rust-facing type from a pointee, and so
/// demands a pointer underlying type.
pub open spec fn pointer_deriving(c: RustConversionTypeV) -> bool {
    c is FromPinMaybeUninitToPtr || c is FromPinMoveRefToPtr || c is FromTypeToPtr
}

/// The policy's caller contract: a pointer-deriving tag stands on a pointer
/// underlying type.
pub open spec fn policy_type_ok(p: TypeConversionPolicyV) -> bool {
    pointer_deriving(p.rust_conversion) ==> p.unwrapped_type is Pointer
}

/// The Rust-facing parameter type for a wrapper call site.
pub open spec fn spec_rust_wrapper_type(p: TypeConversionPolicyV) -> Seq<char> {
    match p.rust_conversion {
        RustConversionTypeV::NoConversion => spec_rust_spelling(p.unwrapped_type),
        RustConversionTypeV::FromStr => "impl ToCppString"@,
        RustConversionTypeV::ToBoxedUpHolder { subclass } => (
        "autocxx::subclass::CppSubclassRustPeerHolder<super::super::super::"@ + subclass + ">"@),
        RustConversionTypeV::FromPinMaybeUninitToPtr => "::std::pin::Pin<&mut ::std::mem::MaybeUninit<"@
            + spec_pointee(p.unwrapped_type) + ">>"@,
        RustConversionTypeV::FromPinMoveRefToPtr => "::std::pin::Pin<autocxx::moveit::MoveRef<'_, "@
            + spec_pointee(p.unwrapped_type) + ">>"@,
        RustConversionTypeV::FromTypeToPtr => "&mut "@ + spec_pointee(p.unwrapped_type),
        RustConversionTypeV::FromValueParamToPtr => "impl autocxx::ValueParam<"@
            + spec_rust_spelling(p.unwrapped_type) + ">"@,
    }
}

/// Mathematical value of a [`RustPattern`].
pub ghost enum RustPatternV {
    Ident { name: Seq<char> },
    Other { text: Seq<char> },
}

/// The binding pattern of a wrapper parameter on the Rust side: a simple
/// identifier, or any other pattern carried as its rendered text.
pub enum RustPattern {
    Ident { name: String },
    Other { text: String },
}

impl View for RustPattern {
    type V = RustPatternV;

    open spec fn view(&self) -> RustPatternV {
        match self {
            RustPattern::Ident { name } => RustPatternV::Ident { name: name@ },
            RustPattern::Other { text } => RustPatternV::Other { text: text@ },
        }
    }
}

/// The rendered text of a binding pattern.
pub open spec fn spec_pattern_text(p: RustPatternV) -> Seq<char> {
    match p {
        RustPatternV::Ident { name } => name,
        RustPatternV::Other { text } => text,
    }
}

impl RustPattern {
    /// The rendered text of this pattern.
    pub fn text(&self) -> (r: String)
        ensures
            r@ == spec_pattern_text(self@),
    {
        match self {
            RustPattern::Ident { name } => name.clone(),
            RustPattern::Other { text } => text.clone(),
        }
    }
}

/// The view of an optional owned string.
pub open spec fn view_opt(o: Option<String>) -> Option<Seq<char>> {
    match o {
        Option::Some(s) => Option::Some(s@),
        Option::None => Option::None,
    }
}

/// The adaptation contract: a value-parameter conversion demands a simple
/// identifier binding.
pub open spec fn rust_conversion_ok(p: TypeConversionPolicyV, var: RustPatternV) -> bool {
    p.rust_conversion is FromValueParamToPtr ==> var is Ident
}

/// The scratch-holder setup statement for a value-parameter binding: the
/// holder is declared, borrowed, and populated, under an unsafe-execution
/// marker when asked for.
pub open spec fn spec_value_param_setup(name: Seq<char>, wrap_in_unsafe: bool) -> Seq<char> {
    "let mut "@ + name + "_space = autocxx::ValueParamHandler::new("@ + name + "); let "@ + name
        + "_space = &mut "@ + name + "_space; "@ + (if wrap_in_unsafe {
        "unsafe { "@ + name + "_space.populate() }"@
    } else {
        name + "_space.populate()"@
    }) + ";"@
}

/// The argument expression for a value-parameter binding: the scratch
/// holder's pointer accessor.
pub open spec fn spec_value_param_expr(name: Seq<char>) -> Seq<char> {
    name + "_space.get_ptr()"@
}

/// The setup statement, if the policy needs one, that must run before the
/// boundary call.
pub open spec fn spec_rust_setup(
    p: TypeConversionPolicyV,
    var: RustPatternV,
    wrap_in_unsafe: bool,
) -> Option<Seq<char>> {
    if p.rust_conversion is FromValueParamToPtr {
        match var {
            RustPatternV::Ident { name } => Option::Some(
                spec_value_param_setup(name, wrap_in_unsafe),
            ),
            RustPatternV::Other { .. } => Option::None,
        }
    } else {
        Option::None
    }
}

/// The expression standing in the boundary call's argument position.
pub open spec fn spec_rust_expr(p: TypeConversionPolicyV, var: RustPatternV) -> Seq<char> {
    match p.rust_conversion {
        RustConversionTypeV::NoConversion => spec_pattern_text(var),
        RustConversionTypeV::FromStr => spec_pattern_text(var) + ".into_cpp()"@,
        RustConversionTypeV::ToBoxedUpHolder { subclass } => "Box::new("@ + subclass + "Holder("@
            + spec_pattern_text(var) + "))"@,
        RustConversionTypeV::FromPinMaybeUninitToPtr => spec_pattern_text(var)
            + ".get_unchecked_mut().as_mut_ptr()"@,
        RustConversionTypeV::FromPinMoveRefToPtr => (
        "{ let r: &mut _ = ::std::pin::Pin::into_inner_unchecked("@ + spec_pattern_text(var)
            + ".as_mut()); r }"@),
        RustConversionTypeV::FromTypeToPtr => spec_pattern_text(var),
        RustConversionTypeV::FromValueParamToPtr => match var {
            RustPatternV::Ident { name } => spec_value_param_expr(name),
            RustPatternV::Other { text } => text,
        },
    }
}

impl TypeConversionPolicy {
    /// The C++ spelling of the unconverted underlying type, used for the
    /// generated wrapper's parameter list.
    pub fn unconverted_type(&self, db: &TypeDatabase) -> (r: String)
        ensures
            r@ == spec_cpp_spelling(self.unwrapped_type@, db@),
    {
        match &self.unwrapped_type {
            UnwrappedType::Plain { id } => db.resolve(id.as_str()),
            UnwrappedType::Pointer { pointee } => {
                let mut r = db.resolve(pointee.as_str());
                r.append("*");
                r
            },
        }
    }

    /// The boundary-visible converted type, used for the generated wrapper's
    /// return type. The policies here leave the C++-visible type unchanged.
    pub fn converted_type(&self, db: &TypeDatabase) -> (r: String)
        ensures
            r@ == spec_cpp_spelling(self.unwrapped_type@, db@),
    {
        self.unconverted_type(db)
    }

    /// The C++-side conversion expression for an argument rendered as `expr`.
    /// The policies here pass the argument through unchanged.
    pub fn conversion(&self, expr: &str, _db: &TypeDatabase) -> (r: String)
        ensures
            r@ == expr@,
    {
        expr.to_owned()
    }

    /// The Rust-facing type under which a wrapper call site takes this value.
    /// Fails when a pointer-deriving tag stands on a non-pointer type.
    pub fn rust_wrapper_unconverted_type(&self) -> (r: Result<String, GenError>)
        ensures
            r is Ok <==> policy_type_ok(self@),
            r is Ok ==> r->Ok_0@ == spec_rust_wrapper_type(self@),
            r is Err ==> r->Err_0 == GenError::NotAPointer,
    {
        match &self.rust_conversion {
            RustConversionType::NoConversion => Ok(self.rust_spelling()),
            RustConversionType::FromStr => Ok("impl ToCppString".to_owned()),
            RustConversionType::ToBoxedUpHolder { subclass } => {
                let mut r =
                    "autocxx::subclass::CppSubclassRustPeerHolder<super::super::super::".to_owned();
                r.append(subclass.as_str());
                r.append(">");
                Ok(r)
            },
            RustConversionType::FromPinMaybeUninitToPtr => {
                match &self.unwrapped_type {
                    UnwrappedType::Pointer { pointee } => {
                        let mut r = "::std::pin::Pin<&mut ::std::mem::MaybeUninit<".to_owned();
                        r.append(pointee.as_str());
                        r.append(">>");
                        Ok(r)
                    },
                    UnwrappedType::Plain { .. } => Err(GenError::NotAPointer),
                }
            },
            RustConversionType::FromPinMoveRefToPtr => {
                match &self.unwrapped_type {
                    UnwrappedType::Pointer { pointee } => {
                        let mut r = "::std::pin::Pin<autocxx::moveit::MoveRef<'_, ".to_owned();
                        r.append(pointee.as_str());
                        r.append(">>");
                        Ok(r)
                    },
                    UnwrappedType::Plain { .. } => Err(GenError::NotAPointer),
                }
            },
            RustConversionType::FromTypeToPtr => {
                match &self.unwrapped_type {
                    UnwrappedType::Pointer { pointee } => {
                        let mut r = "&mut ".to_owned();
                        r.append(pointee.as_str());
                        Ok(r)
                    },
                    UnwrappedType::Plain { .. } => Err(GenError::NotAPointer),
                }
            },
            RustConversionType::FromValueParamToPtr => {
                let mut r = "impl autocxx::ValueParam<".to_owned();
                let spelling = self.rust_spelling();
                r.append(spelling.as_str());
                r.append(">");
                Ok(r)
            },
        }
    }

    /// The setup statement (if any) and argument expression that adapt a
    /// bound parameter of the Rust-facing type into the boundary-call
    /// argument. Fails when a value-parameter conversion is asked of a
    /// binding that is not a simple identifier.
    pub fn rust_conversion(&self, var: &RustPattern, wrap_in_unsafe: bool) -> (r: Result<
        (Option<String>, String),
        GenError,
    >)
        ensures
            r is Ok <==> rust_conversion_ok(self@, var@),
            r is Ok ==> view_opt(r->Ok_0.0) == spec_rust_setup(self@, var@, wrap_in_unsafe),
            r is Ok ==> r->Ok_0.1@ == spec_rust_expr(self@, var@),
            r is Err ==> r->Err_0 == GenError::NonIdentPattern,
    {
        match &self.rust_conversion {
            RustConversionType::NoConversion => Ok((None, var.text())),
            RustConversionType::FromStr => {
                let mut e = var.text();
                e.append(".into_cpp()");
                Ok((None, e))
            },
            RustConversionType::ToBoxedUpHolder { subclass } => {
                let mut e = "Box::new(".to_owned();
                e.append(subclass.as_str());
                e.append("Holder(");
                let text = var.text();
                e.append(text.as_str());
                e.append("))");
                proof {
                    assert(e@ =~= spec_rust_expr(self@, var@));
                }
                Ok((None, e))
            },
            RustConversionType::FromPinMaybeUninitToPtr => {
                let mut e = var.text();
                e.append(".get_unchecked_mut().as_mut_ptr()");
                Ok((None, e))
            },
            RustConversionType::FromPinMoveRefToPtr => {
                let mut e = "{ let r: &mut _ = ::std::pin::Pin::into_inner_unchecked(".to_owned();
                let text = var.text();
                e.append(text.as_str());
                e.append(".as_mut()); r }");
                proof {
                    assert(e@ =~= spec_rust_expr(self@, var@));
                }
                Ok((None, e))
            },
            RustConversionType::FromTypeToPtr => Ok((None, var.text())),
            RustConversionType::FromValueParamToPtr => {
                match var {
                    RustPattern::Ident { name } => {
                        let mut setup = "let mut ".to_owned();
                        setup.append(name.as_str());
                        setup.append("_space = autocxx::ValueParamHandler::new(");
                        setup.append(name.as_str());
                        setup.append("); let ");
                        setup.append(name.as_str());
                        setup.append("_space = &mut ");
                        setup.append(name.as_str());
                        setup.append("_space; ");
                        if wrap_in_unsafe {
                            setup.append("unsafe { ");
                            setup.append(name.as_str());
                            setup.append("_space.populate() }");
                        } else {
                            setup.append(name.as_str());
                            setup.append("_space.populate()");
                        }
                        setup.append(";");
                        let mut e = name.clone();
                        e.append("_space.get_ptr()");
                        proof {
                            assert(setup@ =~= spec_value_param_setup(name@, wrap_in_unsafe));
                            assert(e@ =~= spec_value_param_expr(name@));
                        }
                        Ok((Some(setup), e))
                    },
                    RustPattern::Other { .. } => Err(GenError::NonIdentPattern),
                }
            },
        }
    }

    /// The Rust spelling of the underlying type.
    fn rust_spelling(&self) -> (r: String)
        ensures
            r@ == spec_rust_spelling(self.unwrapped_type@),
    {
        match &self.unwrapped_type {
            UnwrappedType::Plain { id } => id.clone(),
            UnwrappedType::Pointer { pointee } => {
                let mut r = "*mut ".to_owned();
                r.append(pointee.as_str());
                r
            },
        }
    }
}

} // verus!
