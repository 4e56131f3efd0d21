//! Generation of the owned `Cib` impl for a type declaration.
//!
//! The generated text is a function of four parts of the declaration alone:
//! its name, and its generics split for an impl (the parameters of the impl
//! header, the arguments after the type's name, and the `where` clause).
//! Nothing else of the declaration is read: its fields and variants are not
//! inspected.
use quote::ToTokens;
use vstd::prelude::*;
use vstd::string::StringExecFns;

verus! {

/// The parts of a type declaration that the owned impl repeats, as syn reads
/// them from its source text: the type's name, the impl generics, the type
/// generics and the `where` clause, each as token text. `None` where the text
/// is not a struct, enum or union declaration.
pub uninterp spec fn declaration_parts(src: Seq<char>) -> Option<
    (Seq<char>, Seq<char>, Seq<char>, Seq<char>),
>;

/// What stands between the impl generics and the type's name.
pub open spec fn trait_for() -> Seq<char> {
    " ::cib::Cib<Self> for "@
}

/// The body of every generated impl.
pub open spec fn identity_body() -> Seq<char> {
    "{ fn cib(self) -> Self { self } }"@
}

/// The `where` clause followed by one space, or nothing where there is none.
pub open spec fn where_part(where_clause: Seq<char>) -> Seq<char> {
    if where_clause.len() == 0 {
        Seq::empty()
    } else {
        where_clause + " "@
    }
}

/// The text of the owned impl for a type: `Cib<Self>` for the type itself,
/// converting by returning `self`, under the type's own generics and `where`
/// clause.
pub open spec fn owned_impl_spec(
    name: Seq<char>,
    impl_generics: Seq<char>,
    type_generics: Seq<char>,
    where_clause: Seq<char>,
) -> Seq<char> {
    "impl"@ + impl_generics + trait_for() + name + type_generics + " "@ + where_part(where_clause)
        + identity_body()
}

/// What the generator yields for a declaration's source text: the owned impl
/// of its parts, or `None` where the text is not a declaration.
pub open spec fn generated(src: Seq<char>) -> Option<Seq<char>> {
    match declaration_parts(src) {
        Some((name, impl_generics, type_generics, where_clause)) => Some(
            owned_impl_spec(name, impl_generics, type_generics, where_clause),
        ),
        None => None,
    }
}

/// The source text could not be read as a type declaration.
pub struct DeclarationError {
    /// The parser's description of what it found.
    pub message: String,
}

/// Relies on `syn::parse_str::<syn::DeriveInput>` to read a declaration, on
/// `syn::Generics::split_for_impl` to split its generics for an impl, and on
/// the token printing of `proc_macro2` for the text of each part; on a failure,
/// syn's message is handed on. `proc_macro2::fallback::force` is called first,
/// so that lexing and printing go through proc-macro2's own implementation and
/// never through the compiler's, whose spacing differs: the parts then depend
/// on the source text alone, inside a macro expansion or not.
#[verifier::external_body]
fn split_declaration(src: &str) -> (r: Result<(String, String, String, String), String>)
    ensures
        match r {
            Ok(p) => declaration_parts(src@) == Some((p.0@, p.1@, p.2@, p.3@)),
            Err(_) => declaration_parts(src@) is None,
        },
{
    proc_macro2::fallback::force();
    match syn::parse_str::<syn::DeriveInput>(src) {
        Ok(input) => {
            let (impl_generics, type_generics, where_clause) = input.generics.split_for_impl();
            Ok((
                input.ident.to_string(),
                impl_generics.to_token_stream().to_string(),
                type_generics.to_token_stream().to_string(),
                where_clause.to_token_stream().to_string(),
            ))
        },
        Err(e) => Err(e.to_string()),
    }
}

/// Text of the owned impl for the type `name`, whose generics split for an
/// impl are `impl_generics`, `type_generics` and `where_clause`. The three are
/// repeated verbatim.
pub fn owned_impl(name: &str, impl_generics: &str, type_generics: &str, where_clause: &str) -> (r:
    String)
    ensures
        r@ == owned_impl_spec(name@, impl_generics@, type_generics@, where_clause@),
{
    let mut r = String::from_str("impl");
    r.append(impl_generics);
    r.append(" ::cib::Cib<Self> for ");
    r.append(name);
    r.append(type_generics);
    r.append(" ");
    if !where_clause.is_empty() {
        r.append(where_clause);
        r.append(" ");
    }
    r.append("{ fn cib(self) -> Self { self } }");
    assert(r@ =~= owned_impl_spec(name@, impl_generics@, type_generics@, where_clause@));
    r
}

/// The owned impl for the type declared in `src`: the type converts to itself
/// by returning `self`, under its own generics and `where` clause. An error
/// where `src` is not a struct, enum or union declaration.
pub fn derive_cib(src: &str) -> (r: Result<String, DeclarationError>)
    ensures
        match generated(src@) {
            Some(text) => r matches Ok(s) && s@ == text,
            None => r is Err,
        },
{
    match split_declaration(src) {
        Ok((name, impl_generics, type_generics, where_clause)) => Ok(
            owned_impl(name.as_str(), impl_generics.as_str(), type_generics.as_str(), where_clause.as_str()),
        ),
        Err(message) => Err(DeclarationError { message }),
    }
}

/// The generator is idempotent: two declarations with the same name, the same
/// generics and the same `where` clause yield the same text, whatever else
/// they hold.
pub proof fn lemma_generation_idempotent(src1: Seq<char>, src2: Seq<char>)
    requires
        declaration_parts(src1) == declaration_parts(src2),
    ensures
        generated(src1) == generated(src2),
{
}

/// The generator forwards generics and constraints verbatim: for a declaration
/// with name `name`, impl generics `impl_generics`, type generics
/// `type_generics` and `where` clause `where_clause`, the generated header is
/// `impl`, the impl generics unchanged, the trait, the name, the type generics
/// unchanged, one space and the `where` clause unchanged.
pub proof fn lemma_generics_forwarded(
    src: Seq<char>,
    name: Seq<char>,
    impl_generics: Seq<char>,
    type_generics: Seq<char>,
    where_clause: Seq<char>,
)
    requires
        declaration_parts(src) == Some((name, impl_generics, type_generics, where_clause)),
    ensures
        generated(src) == Some(owned_impl_spec(name, impl_generics, type_generics, where_clause)),
        ({
            let text = owned_impl_spec(name, impl_generics, type_generics, where_clause);
            let at_trait: int = 4 + impl_generics.len() as int;
            let at_name: int = at_trait + 22;
            let at_args: int = at_name + name.len();
            let at_where: int = at_args + type_generics.len() + 1;
            &&& text.subrange(0, 4) == "impl"@
            &&& text.subrange(4, at_trait) == impl_generics
            &&& text.subrange(at_trait, at_name) == " ::cib::Cib<Self> for "@
            &&& text.subrange(at_name, at_args) == name
            &&& text.subrange(at_args, at_args + type_generics.len()) == type_generics
            &&& text[at_where - 1] == ' '
            &&& text.subrange(at_where, at_where + where_clause.len()) == where_clause
        }),
{
    reveal_strlit("impl");
    reveal_strlit(" ::cib::Cib<Self> for ");
    reveal_strlit(" ");
    let text = owned_impl_spec(name, impl_generics, type_generics, where_clause);
    let at_trait: int = 4 + impl_generics.len() as int;
    let at_name: int = at_trait + 22;
    let at_args: int = at_name + name.len();
    let at_where: int = at_args + type_generics.len() + 1;
    let head = "impl"@ + impl_generics + trait_for() + name + type_generics + " "@;
    assert(text == head + where_part(where_clause) + identity_body());
    assert(head.len() == at_where);
    assert(text.subrange(0, 4) =~= "impl"@);
    assert(text.subrange(4, at_trait) =~= impl_generics);
    assert(text.subrange(at_trait, at_name) =~= trait_for());
    assert(text.subrange(at_name, at_args) =~= name);
    assert(text.subrange(at_args, at_args + type_generics.len()) =~= type_generics);
    assert(text[at_where - 1] == head[at_where - 1]);
    assert(text.subrange(at_where, at_where + where_clause.len()) =~= where_clause);
}

} // verus!
