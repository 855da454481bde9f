//! The generator of additional C++ glue functions: it accumulates one
//! generated function per submitted need, and materializes the final
//! declaration and definition text blocks with a deduplicated, deterministic
//! header block.

use vstd::prelude::*;

use crate::conversion::{
    spec_cpp_spelling, GenError, TypeConversionPolicy, TypeConversionPolicyV, TypeDatabase,
};
use crate::headers::{
    header_views, headers_sorted, insert_header, insert_header_vec, lemma_header_lt_trichotomy,
    lemma_insert_header, spec_include_stmt, Header, HeaderV,
};
use crate::text::{
    decimal_chars, decimal_string, join_strings, join_with, lemma_views_of_push, views_of,
};

verus! {

/// Mathematical value of a [`FunctionWrapperPayload`].
pub ghost enum FunctionWrapperPayloadV {
    Constructor,
    FunctionCall { namespace: Seq<Seq<char>>, id: Seq<char> },
    StaticMethodCall { namespace: Seq<Seq<char>>, ty_id: Seq<char>, fn_id: Seq<char> },
}

/// What the generated wrapper calls: a placement constructor, a free function
/// under an optional namespace path, or a static method of a type under a
/// namespace path.
pub enum FunctionWrapperPayload {
    Constructor,
    FunctionCall { namespace: Vec<String>, id: String },
    StaticMethodCall { namespace: Vec<String>, ty_id: String, fn_id: String },
}

impl View for FunctionWrapperPayload {
    type V = FunctionWrapperPayloadV;

    open spec fn view(&self) -> FunctionWrapperPayloadV {
        match self {
            FunctionWrapperPayload::Constructor => FunctionWrapperPayloadV::Constructor,
            FunctionWrapperPayload::FunctionCall { namespace, id } => (
            FunctionWrapperPayloadV::FunctionCall { namespace: views_of(namespace@), id: id@ }),
            FunctionWrapperPayload::StaticMethodCall { namespace, ty_id, fn_id } => (
            FunctionWrapperPayloadV::StaticMethodCall {
                namespace: views_of(namespace@),
                ty_id: ty_id@,
                fn_id: fn_id@,
            }),
        }
    }
}

/// Mathematical value of a [`FunctionWrapper`].
pub ghost struct FunctionWrapperV {
    pub payload: FunctionWrapperPayloadV,
    pub wrapper_function_name: Seq<char>,
    pub is_a_method: bool,
    pub argument_conversion: Seq<TypeConversionPolicyV>,
    pub return_conversion: Option<TypeConversionPolicyV>,
}

/// Describes the underlying C++ call to wrap: the wrapper's name, whether the
/// first argument is an implicit receiver, one conversion policy per
/// argument, an optional return conversion policy, and the call payload.
pub struct FunctionWrapper {
    pub payload: FunctionWrapperPayload,
    pub wrapper_function_name: String,
    pub is_a_method: bool,
    pub argument_conversion: Vec<TypeConversionPolicy>,
    pub return_conversion: Option<TypeConversionPolicy>,
}

impl View for FunctionWrapper {
    type V = FunctionWrapperV;

    open spec fn view(&self) -> FunctionWrapperV {
        FunctionWrapperV {
            payload: self.payload@,
            wrapper_function_name: self.wrapper_function_name@,
            is_a_method: self.is_a_method,
            argument_conversion: self.argument_conversion@.map_values(
                |p: TypeConversionPolicy| p@,
            ),
            return_conversion: match self.return_conversion {
                Option::Some(p) => Option::Some(p@),
                Option::None => Option::None,
            },
        }
    }
}

/// Mathematical value of an [`AdditionalNeed`].
pub ghost enum NeedV {
    MakeStringConstructor,
    FunctionWrapper { details: FunctionWrapperV },
}

/// A unit of work requested once per required glue function.
pub enum AdditionalNeed {
    MakeStringConstructor,
    FunctionWrapper(Box<FunctionWrapper>),
}

impl View for AdditionalNeed {
    type V = NeedV;

    open spec fn view(&self) -> NeedV {
        match self {
            AdditionalNeed::MakeStringConstructor => NeedV::MakeStringConstructor,
            AdditionalNeed::FunctionWrapper(details) => (NeedV::FunctionWrapper {
                details: details@,
            }),
        }
    }
}

/// The views of a sequence of needs.
pub open spec fn need_views(s: Seq<AdditionalNeed>) -> Seq<NeedV> {
    s.map_values(|n: AdditionalNeed| n@)
}

/// Mathematical value of an [`AdditionalFunction`].
pub ghost struct AdditionalFunctionV {
    pub declaration: Seq<char>,
    pub definition: Seq<char>,
    pub headers: Seq<HeaderV>,
}

/// One generated C++ function: its declaration, its definition, and the
/// headers its text requires. Immutable once appended to the generator.
pub struct AdditionalFunction {
    pub declaration: String,
    pub definition: String,
    pub headers: Vec<Header>,
}

impl View for AdditionalFunction {
    type V = AdditionalFunctionV;

    open spec fn view(&self) -> AdditionalFunctionV {
        AdditionalFunctionV {
            declaration: self.declaration@,
            definition: self.definition@,
            headers: header_views(self.headers@),
        }
    }
}

/// The views of a sequence of generated functions.
pub open spec fn function_views(s: Seq<AdditionalFunction>) -> Seq<AdditionalFunctionV> {
    s.map_values(|f: AdditionalFunction| f@)
}

/// The materialized text blocks of the generated C++.
pub struct AdditionalCpp {
    pub declarations: String,
    pub definitions: String,
}

/// Mathematical value of an [`AdditionalCppGenerator`].
pub ghost struct GeneratorV {
    pub functions: Seq<AdditionalFunctionV>,
    pub inclusions: Seq<char>,
}

/// Accumulates generated functions from submitted needs, in submission
/// order, and materializes the final declaration and definition blocks.
pub struct AdditionalCppGenerator {
    additional_functions: Vec<AdditionalFunction>,
    inclusions: String,
}

impl View for AdditionalCppGenerator {
    type V = GeneratorV;

    closed spec fn view(&self) -> GeneratorV {
        GeneratorV {
            functions: function_views(self.additional_functions@),
            inclusions: self.inclusions@,
        }
    }
}

/// The name of the wrapper parameter at `i`: the reserved receiver name for
/// the first parameter of a method wrapper, else `arg` with the position.
pub open spec fn spec_arg_name(is_a_method: bool, i: int) -> Seq<char> {
    if is_a_method && i == 0 {
        "autocxx_gen_this"@
    } else {
        "arg"@ + decimal_chars(i)
    }
}

/// The rendered parameter list entries of a wrapper, type then name.
pub open spec fn spec_params(d: FunctionWrapperV, db: Seq<(Seq<char>, Seq<char>)>) -> Seq<
    Seq<char>,
> {
    Seq::new(
        d.argument_conversion.len(),
        |i: int|
            spec_cpp_spelling(d.argument_conversion[i].unwrapped_type, db) + " "@ + spec_arg_name(
                d.is_a_method,
                i,
            ),
    )
}

/// The wrapper's C++-visible return type: `void` without a return conversion
/// policy, else that policy's boundary-visible type.
pub open spec fn spec_ret_type(d: FunctionWrapperV, db: Seq<(Seq<char>, Seq<char>)>) -> Seq<
    char,
> {
    match d.return_conversion {
        Option::Some(p) => spec_cpp_spelling(p.unwrapped_type, db),
        Option::None => "void"@,
    }
}

/// The wrapper's declaration, without the closing semicolon.
pub open spec fn spec_declaration(d: FunctionWrapperV, db: Seq<(Seq<char>, Seq<char>)>) -> Seq<
    char,
> {
    spec_ret_type(d, db) + " "@ + d.wrapper_function_name + "("@ + join_with(
        spec_params(d, db),
        ", "@,
    ) + ")"@
}

/// The positional argument expressions of the underlying call; for a method
/// wrapper the first argument is consumed as the receiver instead.
pub open spec fn spec_positional_args(d: FunctionWrapperV) -> Seq<Seq<char>> {
    if d.is_a_method {
        if d.argument_conversion.len() == 0 {
            Seq::empty()
        } else {
            Seq::new(
                (d.argument_conversion.len() - 1) as nat,
                |i: int| spec_arg_name(true, i + 1),
            )
        }
    } else {
        Seq::new(d.argument_conversion.len(), |i: int| spec_arg_name(false, i))
    }
}

/// The underlying call expression of a wrapper.
pub open spec fn spec_call_expr(d: FunctionWrapperV) -> Seq<char> {
    let args = join_with(spec_positional_args(d), ", "@);
    match d.payload {
        FunctionWrapperPayloadV::Constructor => args,
        FunctionWrapperPayloadV::FunctionCall { namespace, id } => {
            if d.is_a_method {
                spec_arg_name(true, 0) + "."@ + id + "("@ + args + ")"@
            } else {
                join_with(namespace.push(id), "::"@) + "("@ + args + ")"@
            }
        },
        FunctionWrapperPayloadV::StaticMethodCall { namespace, ty_id, fn_id } => {
            join_with(namespace.push(ty_id).push(fn_id), "::"@) + "("@ + args + ")"@
        },
    }
}

/// The statement in the wrapper's body: the call, under `return` when a
/// return conversion policy is present.
pub open spec fn spec_body_stmt(d: FunctionWrapperV) -> Seq<char> {
    if d.return_conversion is Some {
        "return "@ + spec_call_expr(d)
    } else {
        spec_call_expr(d)
    }
}

/// The generated function for a by-value wrapper need.
pub open spec fn spec_wrapper_function(d: FunctionWrapperV, db: Seq<(Seq<char>, Seq<char>)>) -> AdditionalFunctionV {
    AdditionalFunctionV {
        declaration: spec_declaration(d, db) + ";"@,
        definition: spec_declaration(d, db) + " { "@ + spec_body_stmt(d) + "; }"@,
        headers: seq![HeaderV { name: "memory"@, system: true }],
    }
}

/// The generated function for a string-constructor need.
pub open spec fn spec_string_constructor_function() -> AdditionalFunctionV {
    AdditionalFunctionV {
        declaration: "std::unique_ptr<std::string> make_string(::rust::Str str)"@ + ";"@,
        definition: "std::unique_ptr<std::string> make_string(::rust::Str str)"@
            + " { return std::make_unique<std::string>(std::string(str)); }"@,
        headers: seq![
            HeaderV { name: "memory"@, system: true },
            HeaderV { name: "string"@, system: true },
            HeaderV { name: "cxx.h"@, system: false },
        ],
    }
}

/// The wrapper spec's caller contract: a method wrapper has at least the
/// receiver argument.
pub open spec fn wrapper_ok(d: FunctionWrapperV) -> bool {
    d.is_a_method ==> d.argument_conversion.len() > 0
}

/// A need's caller contract.
pub open spec fn need_ok(n: NeedV) -> bool {
    match n {
        NeedV::MakeStringConstructor => true,
        NeedV::FunctionWrapper { details } => wrapper_ok(details),
    }
}

/// The generated function for a need.
pub open spec fn generated_for(n: NeedV, db: Seq<(Seq<char>, Seq<char>)>) -> AdditionalFunctionV {
    match n {
        NeedV::MakeStringConstructor => spec_string_constructor_function(),
        NeedV::FunctionWrapper { details } => spec_wrapper_function(details, db),
    }
}

/// The generated functions for a sequence of needs, in submission order.
pub open spec fn generated_all(needs: Seq<NeedV>, db: Seq<(Seq<char>, Seq<char>)>) -> Seq<
    AdditionalFunctionV,
> {
    Seq::new(needs.len(), |i: int| generated_for(needs[i], db))
}

/// Renders the name of the wrapper parameter at `i`.
fn arg_name(is_a_method: bool, i: usize) -> (r: String)
    ensures
        r@ == spec_arg_name(is_a_method, i as int),
{
    if is_a_method && i == 0 {
        "autocxx_gen_this".to_owned()
    } else {
        let mut r = "arg".to_owned();
        let digits = decimal_string(i);
        r.append(digits.as_str());
        r
    }
}

impl AdditionalCppGenerator {
    /// A generator with no accumulated functions and the given caller-supplied
    /// inclusions preamble.
    pub fn new(inclusions: String) -> (g: AdditionalCppGenerator)
        ensures
            g@.functions == Seq::<AdditionalFunctionV>::empty(),
            g@.inclusions == inclusions@,
    {
        let g = AdditionalCppGenerator { additional_functions: Vec::new(), inclusions };
        proof {
            assert(g@.functions =~= Seq::<AdditionalFunctionV>::empty());
        }
        g
    }

    /// Appends the glue function for a string-constructor need: it copies a
    /// borrowed string view into a new owned string.
    pub fn generate_string_constructor(&mut self)
        ensures
            final(self)@.functions == old(self)@.functions.push(spec_string_constructor_function()),
            final(self)@.inclusions == old(self)@.inclusions,
    {
        let decl_base = "std::unique_ptr<std::string> make_string(::rust::Str str)";
        let mut declaration = decl_base.to_owned();
        declaration.append(";");
        let mut definition = decl_base.to_owned();
        definition.append(" { return std::make_unique<std::string>(std::string(str)); }");
        let headers = vec![Header::system("memory"), Header::system("string"), Header::user("cxx.h")];
        let f = AdditionalFunction { declaration, definition, headers };
        proof {
            assert(f@.headers =~= spec_string_constructor_function().headers);
            assert(f@ == spec_string_constructor_function());
        }
        self.additional_functions.push(f);
        proof {
            assert(self@.functions =~= old(self)@.functions.push(
                spec_string_constructor_function(),
            ));
        }
    }

    /// Appends the glue function for a by-value wrapper need, or fails when
    /// the spec marks a method call but carries no receiver argument.
    pub fn generate_by_value_wrapper(
        &mut self,
        details: &FunctionWrapper,
        type_database: &TypeDatabase,
    ) -> (r: Result<(), GenError>)
        ensures
            r is Ok <==> wrapper_ok(details@),
            r is Ok ==> final(self)@.functions == old(self)@.functions.push(
                spec_wrapper_function(details@, type_database@),
            ),
            r is Ok ==> final(self)@.inclusions == old(self)@.inclusions,
            r is Err ==> final(self)@ == old(self)@ && r->Err_0
                == GenError::ReceiverWithoutArguments,
    {
        if details.is_a_method && details.argument_conversion.len() == 0 {
            return Err(GenError::ReceiverWithoutArguments);
        }
        let is_a_method = details.is_a_method;
        let n_args = details.argument_conversion.len();

        let mut params: Vec<String> = Vec::new();
        let mut i: usize = 0;
        proof {
            assert(views_of(params@) =~= spec_params(details@, type_database@).take(0));
        }
        while i < n_args
            invariant
                i <= n_args,
                n_args == details.argument_conversion.len(),
                is_a_method == details.is_a_method,
                views_of(params@) == spec_params(details@, type_database@).take(i as int),
            decreases n_args - i,
        {
            let mut p = details.argument_conversion[i].unconverted_type(type_database);
            p.append(" ");
            let name = arg_name(is_a_method, i);
            p.append(name.as_str());
            let ghost before = params@;
            params.push(p);
            proof {
                let all = spec_params(details@, type_database@);
                assert(details@.argument_conversion[i as int] == details.argument_conversion@[i as int]@);
                assert(p@ == all[i as int]);
                lemma_views_of_push(before, p);
                assert(all.take(i + 1) =~= all.take(i as int).push(all[i as int]));
            }
            i = i + 1;
        }
        proof {
            assert(spec_params(details@, type_database@).take(n_args as int) =~= spec_params(
                details@,
                type_database@,
            ));
        }

        let ret_type = match &details.return_conversion {
            Option::Some(p) => p.converted_type(type_database),
            Option::None => "void".to_owned(),
        };

        let mut declaration = ret_type;
        declaration.append(" ");
        declaration.append(details.wrapper_function_name.as_str());
        declaration.append("(");
        let params_joined = join_strings(&params, ", ");
        declaration.append(params_joined.as_str());
        declaration.append(")");
        proof {
            assert(declaration@ == spec_declaration(details@, type_database@));
        }

        let mut positional: Vec<String> = Vec::new();
        let start: usize = if is_a_method {
            1
        } else {
            0
        };
        let mut i: usize = start;
        proof {
            assert(views_of(positional@) =~= spec_positional_args(details@).take(0));
        }
        while i < n_args
            invariant
                start <= i <= n_args || (start > n_args && i == start),
                start == (if is_a_method { 1int } else { 0int }),
                n_args == details.argument_conversion.len(),
                wrapper_ok(details@),
                is_a_method == details.is_a_method,
                views_of(positional@) == spec_positional_args(details@).take(i - start),
            decreases n_args - i,
        {
            let name = arg_name(is_a_method, i);
            let e = details.argument_conversion[i].conversion(name.as_str(), type_database);
            let ghost before = positional@;
            positional.push(e);
            proof {
                let all = spec_positional_args(details@);
                assert(e@ == all[i - start]);
                lemma_views_of_push(before, e);
                assert(all.take(i + 1 - start) =~= all.take(i - start).push(all[i - start]));
            }
            i = i + 1;
        }
        proof {
            assert(spec_positional_args(details@).take(n_args - start) =~= spec_positional_args(
                details@,
            ));
        }
        let args_joined = join_strings(&positional, ", ");

        let mut call: String = match &details.payload {
            FunctionWrapperPayload::Constructor => args_joined,
            FunctionWrapperPayload::FunctionCall { namespace, id } => {
                if is_a_method {
                    let receiver_name = arg_name(true, 0);
                    let mut c = details.argument_conversion[0].conversion(
                        receiver_name.as_str(),
                        type_database,
                    );
                    c.append(".");
                    c.append(id.as_str());
                    c.append("(");
                    c.append(args_joined.as_str());
                    c.append(")");
                    c
                } else {
                    let mut parts: Vec<String> = Vec::new();
                    let mut k: usize = 0;
                    proof {
                        assert(views_of(parts@) =~= views_of(namespace@).take(0));
                    }
                    while k < namespace.len()
                        invariant
                            k <= namespace.len(),
                            views_of(parts@) == views_of(namespace@).take(k as int),
                        decreases namespace.len() - k,
                    {
                        let part = namespace[k].clone();
                        let ghost before = parts@;
                        parts.push(part);
                        proof {
                            let all = views_of(namespace@);
                            lemma_views_of_push(before, part);
                            assert(all.take(k + 1) =~= all.take(k as int).push(all[k as int]));
                        }
                        k = k + 1;
                    }
                    let last = id.clone();
                    let ghost before = parts@;
                    parts.push(last);
                    proof {
                        assert(views_of(namespace@).take(namespace@.len() as int) =~= views_of(
                            namespace@,
                        ));
                        lemma_views_of_push(before, last);
                        assert(views_of(parts@) == views_of(namespace@).push(id@));
                    }
                    let mut c = join_strings(&parts, "::");
                    c.append("(");
                    c.append(args_joined.as_str());
                    c.append(")");
                    c
                }
            },
            FunctionWrapperPayload::StaticMethodCall { namespace, ty_id, fn_id } => {
                let mut parts: Vec<String> = Vec::new();
                let mut k: usize = 0;
                proof {
                    assert(views_of(parts@) =~= views_of(namespace@).take(0));
                }
                while k < namespace.len()
                    invariant
                        k <= namespace.len(),
                        views_of(parts@) == views_of(namespace@).take(k as int),
                    decreases namespace.len() - k,
                {
                    let part = namespace[k].clone();
                    let ghost before = parts@;
                    parts.push(part);
                    proof {
                        let all = views_of(namespace@);
                        lemma_views_of_push(before, part);
                        assert(all.take(k + 1) =~= all.take(k as int).push(all[k as int]));
                    }
                    k = k + 1;
                }
                let second = ty_id.clone();
                let ghost before_ty = parts@;
                parts.push(second);
                proof {
                    assert(views_of(namespace@).take(namespace@.len() as int) =~= views_of(
                        namespace@,
                    ));
                    lemma_views_of_push(before_ty, second);
                }
                let third = fn_id.clone();
                let ghost before_fn = parts@;
                parts.push(third);
                proof {
                    lemma_views_of_push(before_fn, third);
                    assert(views_of(parts@) == views_of(namespace@).push(ty_id@).push(fn_id@));
                }
                let mut c = join_strings(&parts, "::");
                c.append("(");
                c.append(args_joined.as_str());
                c.append(")");
                c
            },
        };
        proof {
            assert(call@ == spec_call_expr(details@));
        }

        match &details.return_conversion {
            Option::Some(ret) => {
                let converted = ret.conversion(call.as_str(), type_database);
                let mut s = "return ".to_owned();
                s.append(converted.as_str());
                call = s;
            },
            Option::None => {},
        }
        proof {
            assert(call@ == spec_body_stmt(details@));
        }

        let mut definition = declaration.clone();
        definition.append(" { ");
        definition.append(call.as_str());
        definition.append("; }");
        declaration.append(";");

        let headers = vec![Header::system("memory")];
        let f = AdditionalFunction { declaration, definition, headers };
        proof {
            assert(f@.headers =~= spec_wrapper_function(details@, type_database@).headers);
            assert(f@ == spec_wrapper_function(details@, type_database@));
        }
        self.additional_functions.push(f);
        proof {
            assert(self@.functions =~= old(self)@.functions.push(
                spec_wrapper_function(details@, type_database@),
            ));
        }
        Ok(())
    }

    /// Consumes the needs in order, appending exactly one generated function
    /// per need, or fails without any effect when a need violates its caller
    /// contract.
    pub fn add_needs(
        &mut self,
        additions: Vec<AdditionalNeed>,
        type_database: &TypeDatabase,
    ) -> (r: Result<(), GenError>)
        ensures
            r is Ok <==> (forall|k: int|
                0 <= k < additions@.len() ==> need_ok(#[trigger] need_views(additions@)[k])),
            r is Ok ==> final(self)@.functions == old(self)@.functions + generated_all(
                need_views(additions@),
                type_database@,
            ),
            r is Ok ==> final(self)@.inclusions == old(self)@.inclusions,
            r is Err ==> final(self)@ == old(self)@ && r->Err_0
                == GenError::ReceiverWithoutArguments,
    {
        let mut j: usize = 0;
        while j < additions.len()
            invariant
                j <= additions.len(),
                forall|k: int| 0 <= k < j ==> need_ok(#[trigger] need_views(additions@)[k]),
            decreases additions.len() - j,
        {
            match &additions[j] {
                AdditionalNeed::MakeStringConstructor => {},
                AdditionalNeed::FunctionWrapper(details) => {
                    if details.is_a_method && details.argument_conversion.len() == 0 {
                        proof {
                            assert(!need_ok(need_views(additions@)[j as int]));
                        }
                        return Err(GenError::ReceiverWithoutArguments);
                    }
                },
            }
            proof {
                assert(need_ok(need_views(additions@)[j as int]));
            }
            j = j + 1;
        }

        let ghost orig = self@;
        let ghost all = generated_all(need_views(additions@), type_database@);
        let mut i: usize = 0;
        while i < additions.len()
            invariant
                i <= additions.len(),
                forall|k: int|
                    0 <= k < additions@.len() ==> need_ok(#[trigger] need_views(additions@)[k]),
                all == generated_all(need_views(additions@), type_database@),
                self@.functions == orig.functions + all.take(i as int),
                self@.inclusions == orig.inclusions,
            decreases additions.len() - i,
        {
            match &additions[i] {
                AdditionalNeed::MakeStringConstructor => {
                    self.generate_string_constructor();
                },
                AdditionalNeed::FunctionWrapper(details) => {
                    proof {
                        assert(need_views(additions@)[i as int] == additions@[i as int]@);
                        assert(wrapper_ok(details@));
                    }
                    let res = self.generate_by_value_wrapper(details, type_database);
                    match res {
                        Result::Ok(()) => {},
                        Result::Err(e) => {
                            proof {
                                assert(false);
                            }
                            return Err(e);
                        },
                    }
                },
            }
            proof {
                assert(all[i as int] == generated_for(need_views(additions@)[i as int], type_database@));
                assert(all.take(i + 1) =~= all.take(i as int).push(all[i as int]));
                assert(orig.functions + all.take(i + 1) =~= (orig.functions + all.take(
                    i as int,
                )).push(all[i as int]));
            }
            i = i + 1;
        }
        proof {
            assert(all.take(additions@.len() as int) =~= all);
        }
        Ok(())
    }

    /// The chosen text of every accumulated function, in submission order,
    /// newline-joined with a trailing newline.
    pub fn concat_additional_items(&self, definitions: bool) -> (r: String)
        ensures
            r@ == join_with(spec_items(self@.functions, definitions), "\n"@) + "\n"@,
    {
        let mut parts: Vec<String> = Vec::new();
        let mut i: usize = 0;
        proof {
            assert(views_of(parts@) =~= spec_items(self@.functions, definitions).take(0));
        }
        while i < self.additional_functions.len()
            invariant
                i <= self.additional_functions.len(),
                views_of(parts@) == spec_items(self@.functions, definitions).take(i as int),
            decreases self.additional_functions.len() - i,
        {
            let item = if definitions {
                self.additional_functions[i].definition.clone()
            } else {
                self.additional_functions[i].declaration.clone()
            };
            let ghost before = parts@;
            parts.push(item);
            proof {
                let all = spec_items(self@.functions, definitions);
                assert(self@.functions[i as int] == self.additional_functions@[i as int]@);
                assert(item@ == all[i as int]);
                lemma_views_of_push(before, item);
                assert(all.take(i + 1) =~= all.take(i as int).push(all[i as int]));
            }
            i = i + 1;
        }
        proof {
            assert(spec_items(self@.functions, definitions).take(self@.functions.len() as int)
                =~= spec_items(self@.functions, definitions));
        }
        let mut r = join_strings(&parts, "\n");
        r.append("\n");
        r
    }

    /// Materializes the final text blocks, or nothing when no need was ever
    /// submitted.
    pub fn generate(&self) -> (r: Option<AdditionalCpp>)
        ensures
            r is Some <==> self@.functions.len() > 0,
            r is Some ==> r->0.declarations@ == spec_declarations_block(self@),
            r is Some ==> r->0.definitions@ == spec_definitions_block(self@),
    {
        if self.additional_functions.len() == 0 {
            return Option::None;
        }
        let mut hdrs: Vec<Header> = Vec::new();
        let ghost funcs = self@.functions;
        let mut i: usize = 0;
        proof {
            assert(funcs.skip(0) =~= funcs);
            assert(header_views(hdrs@) =~= Seq::<HeaderV>::empty());
        }
        while i < self.additional_functions.len()
            invariant
                i <= self.additional_functions.len(),
                funcs == self@.functions,
                headers_sorted(header_views(hdrs@)),
                collect_headers_acc(header_views(hdrs@), funcs.skip(i as int)) == collect_headers(
                    funcs,
                ),
            decreases self.additional_functions.len() - i,
        {
            let n_headers = self.additional_functions[i].headers.len();
            let ghost hs = funcs[i as int].headers;
            let mut j: usize = 0;
            proof {
                assert(hs.skip(0) =~= hs);
                assert(funcs.skip(i as int)[0] == funcs[i as int]);
                assert(funcs.skip(i as int).drop_first() =~= funcs.skip(i + 1));
            }
            while j < n_headers
                invariant
                    j <= n_headers,
                    funcs == self@.functions,
                    i < self.additional_functions@.len(),
                    n_headers == self.additional_functions@[i as int].headers@.len(),
                    hs == funcs[i as int].headers,
                    headers_sorted(header_views(hdrs@)),
                    collect_headers_acc(
                        insert_function_headers(header_views(hdrs@), hs.skip(j as int)),
                        funcs.skip(i + 1),
                    ) == collect_headers(funcs),
                decreases n_headers - j,
            {
                let h = Header {
                    name: self.additional_functions[i].headers[j].name.clone(),
                    system: self.additional_functions[i].headers[j].system,
                };
                proof {
                    assert(h@ == hs[j as int]);
                    assert(hs.skip(j as int)[0] == hs[j as int]);
                    assert(hs.skip(j as int).drop_first() =~= hs.skip(j + 1));
                    lemma_insert_header(header_views(hdrs@), h@);
                }
                insert_header_vec(&mut hdrs, h);
                j = j + 1;
            }
            proof {
                assert(hs.skip(n_headers as int) =~= Seq::<HeaderV>::empty());
            }
            i = i + 1;
        }
        proof {
            assert(funcs.skip(self@.functions.len() as int) =~= Seq::<AdditionalFunctionV>::empty());
            assert(header_views(hdrs@) == collect_headers(funcs));
        }

        let mut stmts: Vec<String> = Vec::new();
        let mut k: usize = 0;
        proof {
            assert(views_of(stmts@) =~= collect_headers(funcs).map_values(
                |h: HeaderV| spec_include_stmt(h),
            ).take(0));
        }
        while k < hdrs.len()
            invariant
                k <= hdrs.len(),
                header_views(hdrs@) == collect_headers(funcs),
                funcs == self@.functions,
                views_of(stmts@) == collect_headers(funcs).map_values(
                    |h: HeaderV| spec_include_stmt(h),
                ).take(k as int),
            decreases hdrs.len() - k,
        {
            let stmt = hdrs[k].include_stmt();
            let ghost before = stmts@;
            stmts.push(stmt);
            proof {
                let all = collect_headers(funcs).map_values(|h: HeaderV| spec_include_stmt(h));
                assert(header_views(hdrs@)[k as int] == hdrs@[k as int]@);
                assert(stmt@ == all[k as int]);
                lemma_views_of_push(before, stmt);
                assert(all.take(k + 1) =~= all.take(k as int).push(all[k as int]));
            }
            k = k + 1;
        }
        proof {
            let m = collect_headers(funcs).map_values(|h: HeaderV| spec_include_stmt(h));
            assert(m.take(m.len() as int) =~= m);
        }
        let mut declarations = join_strings(&stmts, "\n");
        declarations.append("\n");
        declarations.append(self.inclusions.as_str());
        declarations.append("\n");
        let decls = self.concat_additional_items(false);
        declarations.append(decls.as_str());

        let mut definitions = "#include \"autocxxgen.h\"\n".to_owned();
        let defs = self.concat_additional_items(true);
        definitions.append(defs.as_str());

        proof {
            assert(declarations@ =~= spec_declarations_block(self@));
            assert(definitions@ =~= spec_definitions_block(self@));
        }
        Option::Some(AdditionalCpp { declarations, definitions })
    }
}

/// The chosen text of each function: definitions or declarations.
pub open spec fn spec_items(funcs: Seq<AdditionalFunctionV>, definitions: bool) -> Seq<Seq<char>> {
    Seq::new(
        funcs.len(),
        |i: int|
            if definitions {
                funcs[i].definition
            } else {
                funcs[i].declaration
            },
    )
}

/// Folds one function's required headers into the accumulated sorted set.
pub open spec fn insert_function_headers(acc: Seq<HeaderV>, hs: Seq<HeaderV>) -> Seq<HeaderV>
    decreases hs.len(),
{
    if hs.len() == 0 {
        acc
    } else {
        insert_function_headers(insert_header(acc, hs[0]), hs.drop_first())
    }
}

/// Folds every function's required headers, in order, into the accumulated
/// sorted set.
pub open spec fn collect_headers_acc(
    acc: Seq<HeaderV>,
    funcs: Seq<AdditionalFunctionV>,
) -> Seq<HeaderV>
    decreases funcs.len(),
{
    if funcs.len() == 0 {
        acc
    } else {
        collect_headers_acc(insert_function_headers(acc, funcs[0].headers), funcs.drop_first())
    }
}

/// The deduplicated headers of every function, in sorted order.
pub open spec fn collect_headers(funcs: Seq<AdditionalFunctionV>) -> Seq<HeaderV> {
    collect_headers_acc(Seq::empty(), funcs)
}

/// One sequence holds a value exactly when its head or its tail does.
proof fn lemma_contains_head_or_tail(s: Seq<HeaderV>, x: HeaderV)
    requires
        s.len() > 0,
    ensures
        s.contains(x) <==> (s[0] == x || s.drop_first().contains(x)),
{
    if s.contains(x) {
        let k = choose|k: int| 0 <= k < s.len() && s[k] == x;
        if k > 0 {
            assert(s.drop_first()[k - 1] == x);
            assert(s.drop_first().contains(x));
        }
    }
    if s.drop_first().contains(x) {
        let k = choose|k: int| 0 <= k < s.drop_first().len() && s.drop_first()[k] == x;
        assert(s[k + 1] == x);
        assert(s.contains(x));
    }
    if s[0] == x {
        assert(s.contains(x));
    }
}

/// Folding one function's headers keeps the accumulated set sorted, and its
/// contents are exactly the union.
proof fn lemma_insert_function_headers(acc: Seq<HeaderV>, hs: Seq<HeaderV>)
    requires
        headers_sorted(acc),
    ensures
        headers_sorted(insert_function_headers(acc, hs)),
        forall|x: HeaderV| #[trigger] insert_function_headers(acc, hs).contains(x) <==> acc.contains(
            x,
        ) || hs.contains(x),
    decreases hs.len(),
{
    if hs.len() > 0 {
        lemma_insert_header(acc, hs[0]);
        lemma_insert_function_headers(insert_header(acc, hs[0]), hs.drop_first());
        assert forall|x: HeaderV| #[trigger]
            insert_function_headers(acc, hs).contains(x) <==> acc.contains(x) || hs.contains(
                x,
            ) by {
            lemma_contains_head_or_tail(hs, x);
        }
    }
}

/// Folding every function's headers keeps the accumulated set sorted, and
/// its contents are exactly the union over functions.
proof fn lemma_collect_headers_acc(acc: Seq<HeaderV>, funcs: Seq<AdditionalFunctionV>)
    requires
        headers_sorted(acc),
    ensures
        headers_sorted(collect_headers_acc(acc, funcs)),
        forall|x: HeaderV| #[trigger] collect_headers_acc(acc, funcs).contains(x) <==> acc.contains(
            x,
        ) || (exists|i: int| 0 <= i < funcs.len() && #[trigger] funcs[i].headers.contains(x)),
    decreases funcs.len(),
{
    if funcs.len() > 0 {
        lemma_insert_function_headers(acc, funcs[0].headers);
        lemma_collect_headers_acc(insert_function_headers(acc, funcs[0].headers), funcs.drop_first());
        let rest = funcs.drop_first();
        assert forall|x: HeaderV| #[trigger]
            collect_headers_acc(acc, funcs).contains(x) <==> acc.contains(x) || (exists|i: int|
                0 <= i < funcs.len() && #[trigger] funcs[i].headers.contains(x)) by {
            if exists|i: int| 0 <= i < funcs.len() && #[trigger] funcs[i].headers.contains(x) {
                let i = choose|i: int| 0 <= i < funcs.len() && #[trigger] funcs[i].headers.contains(
                    x,
                );
                if i > 0 {
                    assert(rest[i - 1].headers.contains(x));
                    assert(exists|j: int| 0 <= j < rest.len() && #[trigger] rest[j].headers.contains(
                        x,
                    ));
                }
            }
            if exists|j: int| 0 <= j < rest.len() && #[trigger] rest[j].headers.contains(x) {
                let j = choose|j: int| 0 <= j < rest.len() && #[trigger] rest[j].headers.contains(
                    x,
                );
                assert(funcs[j + 1].headers.contains(x));
            }
            if funcs[0].headers.contains(x) {
                assert(exists|i: int| 0 <= i < funcs.len() && #[trigger] funcs[i].headers.contains(
                    x,
                ));
            }
        }
    }
}

/// Law: the collected header block is deterministic and deduplicated. It is
/// strictly sorted (system headers first, then by name), it holds a header
/// exactly when some generated function requires it, and no header stands in
/// it twice, however many functions required it.
pub proof fn lemma_headers_deduplicated(funcs: Seq<AdditionalFunctionV>)
    ensures
        headers_sorted(collect_headers(funcs)),
        forall|x: HeaderV| #[trigger] collect_headers(funcs).contains(x) <==> (exists|i: int|
            0 <= i < funcs.len() && #[trigger] funcs[i].headers.contains(x)),
        forall|p: int, q: int|
            0 <= p < q < collect_headers(funcs).len() ==> collect_headers(funcs)[p]
                != collect_headers(funcs)[q],
{
    lemma_collect_headers_acc(Seq::empty(), funcs);
    assert forall|p: int, q: int| 0 <= p < q < collect_headers(funcs).len() implies collect_headers(
        funcs,
    )[p] != collect_headers(funcs)[q] by {
        lemma_header_lt_trichotomy(collect_headers(funcs)[p], collect_headers(funcs)[q]);
    }
}

/// Law: needs and generated functions correspond one to one, in submission
/// order, so there is something to materialize exactly when a need was
/// submitted.
pub proof fn lemma_one_function_per_need(needs: Seq<NeedV>, db: Seq<(Seq<char>, Seq<char>)>)
    ensures
        generated_all(needs, db).len() == needs.len(),
        forall|i: int|
            0 <= i < needs.len() ==> #[trigger] generated_all(needs, db)[i] == generated_for(
                needs[i],
                db,
            ),
        generated_all(needs, db).len() == 0 <==> needs.len() == 0,
{
}

/// The declarations block: the deduplicated include statements, the
/// caller-supplied inclusions preamble, then every declaration in submission
/// order, newline-separated with a trailing newline.
pub open spec fn spec_declarations_block(g: GeneratorV) -> Seq<char> {
    join_with(collect_headers(g.functions).map_values(|h: HeaderV| spec_include_stmt(h)), "\n"@)
        + "\n"@ + g.inclusions + "\n"@ + join_with(spec_items(g.functions, false), "\n"@) + "\n"@
}

/// The definitions block: the tool's own umbrella include, then every
/// definition in submission order, newline-separated with a trailing newline.
pub open spec fn spec_definitions_block(g: GeneratorV) -> Seq<char> {
    "#include \"autocxxgen.h\"\n"@ + join_with(spec_items(g.functions, true), "\n"@) + "\n"@
}

} // verus!
