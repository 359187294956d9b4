//! The option set of the attribute that generates lazy call sites, and its
//! parser.
//!
//! A declaration's attribute arguments arrive as a list of expressions — bare
//! paths (`vulkan`), assignments (`name = "..."`, `strip = true`,
//! `linker = Ident`, `library = Binding`, `link_name = "..."`) and calls
//! (`any(name = "...", ...)`).  Parsing folds over that list, collecting at
//! most one link policy, one strip flag, one linker and one link name, and a
//! list of diagnostics; it succeeds exactly when no diagnostic was raised.
//! Exactly one link policy (`vulkan`, `name`, `any`, `library`) must be
//! specified: a missing one, a duplicate one, an empty `any(...)` and every
//! malformed argument are rejected with a structured diagnostic.

use vstd::prelude::*;
use vstd::string::StringExecFns;

verus! {

/// A literal on the right-hand side of an attribute assignment.
#[derive(Clone, Debug)]
pub enum AttrLit {
    /// A string literal.
    Str(String),
    /// A boolean literal.
    Bool(bool),
    /// A bare identifier.
    Ident(String),
    /// Anything else.
    Other,
}

/// One attribute argument, as the declaration wrote it.
#[derive(Debug)]
pub enum AttrExpr {
    /// A bare path, e.g. `vulkan`.
    Path(String),
    /// An assignment whose left side is a path, e.g. `name = "libc.so"`.
    Assign(String, AttrLit),
    /// A call, e.g. `any(name = "a", name = "b")`.
    Call(String, Vec<AttrExpr>),
    /// Anything else.
    Other,
}

/// The link policy an option set describes.
#[derive(Clone, Debug)]
pub enum LinkType {
    /// Resolution through the Vulkan registry.
    Vulkan,
    /// Resolution through a library aggregate over these candidate names.
    General(Vec<String>),
    /// Resolution through a user-declared aggregate, named by its binding.
    Library(String),
}

/// The mathematical value of an attribute-side [`LinkType`].
pub ghost enum LinkSpec {
    Vulkan,
    General(Seq<String>),
    Library(String),
}

impl View for LinkType {
    type V = LinkSpec;

    open spec fn view(&self) -> LinkSpec {
        match self {
            LinkType::Vulkan => LinkSpec::Vulkan,
            LinkType::General(names) => LinkSpec::General(names@),
            LinkType::Library(binding) => LinkSpec::Library(*binding),
        }
    }
}

/// A parsed option set: the strip flag, the link policy, and the loader
/// backend to use, if one was named.
#[derive(Clone, Debug)]
pub struct AttrData {
    /// Whether the generated call site wraps the cell in a plain callable
    /// (`true`) or exposes the cell itself (`false`, the default).
    pub strip: bool,
    /// The link policy; exactly one must have been specified.
    pub link_ty: LinkType,
    /// The loader backend type named with `linker = ...`, if any.
    pub linker: Option<String>,
    /// The symbol name to resolve instead of the declared identifier, named
    /// with `link_name = ...`, if any.
    pub link_name: Option<String>,
}

/// The mathematical value of an [`AttrData`].
pub ghost struct AttrDataModel {
    pub strip: bool,
    pub link: LinkSpec,
    pub linker: Option<String>,
    pub link_name: Option<String>,
}

impl View for AttrData {
    type V = AttrDataModel;

    open spec fn view(&self) -> AttrDataModel {
        AttrDataModel {
            strip: self.strip,
            link: self.link_ty@,
            linker: self.linker,
            link_name: self.link_name,
        }
    }
}

impl AttrData {
    /// Well-formedness: a general link policy names at least one candidate.
    pub open spec fn wf(&self) -> bool {
        match self.link_ty {
            LinkType::Vulkan => true,
            LinkType::General(libs) => libs@.len() >= 1,
            LinkType::Library(_) => true,
        }
    }
}

/// The structured diagnostics the parser can raise.
#[derive(Clone, Copy, PartialEq, Eq, Structural, Debug)]
pub enum MacroErrorKind {
    /// An argument is none of `vulkan`, `any`, `strip`, `name`, `linker`,
    /// `library`, `link_name`.
    ExpectedKeyword,
    /// A second link policy after one was already given.
    LinkageAlreadyDefined,
    /// `name = ...` with something other than a string literal.
    ExpectedStringLiteral,
    /// `strip = ...` with something other than a boolean literal.
    ExpectedBooleanLiteral,
    /// `linker = ...` with something other than an identifier.
    ExpectedIdentifier,
    /// A second `strip = ...`.
    StripAlreadyDefined,
    /// A second `linker = ...`.
    LinkerAlreadyDefined,
    /// A second `link_name = ...`.
    LinkNameAlreadyDefined,
    /// A call to something other than `any`.
    ExpectedAnyFunction,
    /// An `any` argument assigning to something other than `name`.
    ExpectedNameIdentifier,
    /// An `any` argument that is not an assignment at all.
    ExpectedNameAssignment,
    /// An `any(...)` with no arguments.
    EmptyAnyList,
    /// No link policy was specified at all.
    NoLinkageSpecified,
}

/// The parser's accumulated state: the options seen so far and the
/// diagnostics raised so far.
pub ghost struct ParseState {
    pub strip: Option<bool>,
    pub link: Option<LinkSpec>,
    pub linker: Option<String>,
    pub link_name: Option<String>,
    pub errors: Seq<MacroErrorKind>,
}

/// The state before any argument is read.
pub open spec fn init_state() -> ParseState {
    ParseState { strip: None, link: None, linker: None, link_name: None, errors: Seq::empty() }
}

/// What one `any(...)` argument contributes: candidate names and
/// diagnostics.  An assignment to `name` with a string contributes the
/// string; a wrong left side and a wrong right side are diagnosed
/// independently; a non-assignment is diagnosed as such.
pub open spec fn any_step(e: AttrExpr) -> (Seq<String>, Seq<MacroErrorKind>) {
    match e {
        AttrExpr::Assign(left, right) => {
            let errs0: Seq<MacroErrorKind> = if left@ == "name"@ {
                Seq::empty()
            } else {
                seq![MacroErrorKind::ExpectedNameIdentifier]
            };
            match right {
                AttrLit::Str(s) => (seq![s], errs0),
                _ => (Seq::empty(), errs0.push(MacroErrorKind::ExpectedStringLiteral)),
            }
        },
        _ => (Seq::empty(), seq![MacroErrorKind::ExpectedNameAssignment]),
    }
}

/// What a whole `any(...)` argument list contributes, in order.
pub open spec fn any_fold(args: Seq<AttrExpr>) -> (Seq<String>, Seq<MacroErrorKind>)
    decreases args.len(),
{
    if args.len() == 0 {
        (Seq::empty(), Seq::empty())
    } else {
        let first = any_step(args[0]);
        let rest = any_fold(args.drop_first());
        (first.0 + rest.0, first.1 + rest.1)
    }
}

/// How one attribute argument transforms the parser's state.
pub open spec fn step_spec(st: ParseState, e: AttrExpr) -> ParseState {
    match e {
        AttrExpr::Path(p) => if p@ == "vulkan"@ {
            if st.link is None {
                ParseState { link: Some(LinkSpec::Vulkan), ..st }
            } else {
                ParseState { errors: st.errors.push(MacroErrorKind::LinkageAlreadyDefined), ..st }
            }
        } else {
            ParseState { errors: st.errors.push(MacroErrorKind::ExpectedKeyword), ..st }
        },
        AttrExpr::Assign(left, right) => if left@ == "name"@ {
            match right {
                AttrLit::Str(s) => if st.link is None {
                    ParseState { link: Some(LinkSpec::General(seq![s])), ..st }
                } else {
                    ParseState {
                        errors: st.errors.push(MacroErrorKind::LinkageAlreadyDefined),
                        ..st
                    }
                },
                _ => ParseState {
                    errors: st.errors.push(MacroErrorKind::ExpectedStringLiteral),
                    ..st
                },
            }
        } else if left@ == "strip"@ {
            match right {
                AttrLit::Bool(b) => if st.strip is None {
                    ParseState { strip: Some(b), ..st }
                } else {
                    ParseState { errors: st.errors.push(MacroErrorKind::StripAlreadyDefined), ..st }
                },
                _ => ParseState {
                    errors: st.errors.push(MacroErrorKind::ExpectedBooleanLiteral),
                    ..st
                },
            }
        } else if left@ == "linker"@ {
            match right {
                AttrLit::Ident(id) => if st.linker is None {
                    ParseState { linker: Some(id), ..st }
                } else {
                    ParseState {
                        errors: st.errors.push(MacroErrorKind::LinkerAlreadyDefined),
                        ..st
                    }
                },
                _ => ParseState { errors: st.errors.push(MacroErrorKind::ExpectedIdentifier), ..st },
            }
        } else if left@ == "library"@ {
            match right {
                AttrLit::Ident(binding) => if st.link is None {
                    ParseState { link: Some(LinkSpec::Library(binding)), ..st }
                } else {
                    ParseState {
                        errors: st.errors.push(MacroErrorKind::LinkageAlreadyDefined),
                        ..st
                    }
                },
                _ => ParseState { errors: st.errors.push(MacroErrorKind::ExpectedIdentifier), ..st },
            }
        } else if left@ == "link_name"@ {
            match right {
                AttrLit::Str(s) => if st.link_name is None {
                    ParseState { link_name: Some(s), ..st }
                } else {
                    ParseState {
                        errors: st.errors.push(MacroErrorKind::LinkNameAlreadyDefined),
                        ..st
                    }
                },
                _ => ParseState {
                    errors: st.errors.push(MacroErrorKind::ExpectedStringLiteral),
                    ..st
                },
            }
        } else {
            ParseState { errors: st.errors.push(MacroErrorKind::ExpectedKeyword), ..st }
        },
        AttrExpr::Call(callee, args) => if callee@ == "any"@ {
            let contributed = any_fold(args@);
            let st1 = ParseState { errors: st.errors + contributed.1, ..st };
            if contributed.0.len() == 0 {
                ParseState { errors: st1.errors.push(MacroErrorKind::EmptyAnyList), ..st1 }
            } else if st.link is None {
                ParseState { link: Some(LinkSpec::General(contributed.0)), ..st1 }
            } else {
                ParseState { errors: st1.errors.push(MacroErrorKind::LinkageAlreadyDefined), ..st1 }
            }
        } else {
            ParseState { errors: st.errors.push(MacroErrorKind::ExpectedAnyFunction), ..st }
        },
        AttrExpr::Other => ParseState {
            errors: st.errors.push(MacroErrorKind::ExpectedKeyword),
            ..st
        },
    }
}

/// The parser's state after reading a list of arguments.
pub open spec fn fold_args(st: ParseState, args: Seq<AttrExpr>) -> ParseState
    decreases args.len(),
{
    if args.len() == 0 {
        st
    } else {
        fold_args(step_spec(st, args[0]), args.drop_first())
    }
}

/// The final state of parsing an option set: the fold over all arguments,
/// with a missing link policy diagnosed at the end.  Parsing succeeds exactly
/// when this state carries no diagnostic.
pub open spec fn parse_result(args: Seq<AttrExpr>) -> ParseState {
    let st = fold_args(init_state(), args);
    if st.link is None {
        ParseState { errors: st.errors.push(MacroErrorKind::NoLinkageSpecified), ..st }
    } else {
        st
    }
}

/// Reading one more argument is one more step of the fold.
pub proof fn lemma_fold_args_snoc(st: ParseState, args: Seq<AttrExpr>, e: AttrExpr)
    ensures
        fold_args(st, args.push(e)) == step_spec(fold_args(st, args), e),
    decreases args.len(),
{
    reveal_with_fuel(fold_args, 2);
    if args.len() == 0 {
        assert(args.push(e)[0] == e);
        assert(args.push(e).drop_first() =~= Seq::<AttrExpr>::empty());
    } else {
        assert(args.push(e)[0] == args[0]);
        assert(args.push(e).drop_first() =~= args.drop_first().push(e));
        lemma_fold_args_snoc(step_spec(st, args[0]), args.drop_first(), e);
    }
}

/// Reading one more `any` argument appends its contribution.
pub proof fn lemma_any_fold_snoc(args: Seq<AttrExpr>, e: AttrExpr)
    ensures
        any_fold(args.push(e)).0 == any_fold(args).0 + any_step(e).0,
        any_fold(args.push(e)).1 == any_fold(args).1 + any_step(e).1,
    decreases args.len(),
{
    reveal_with_fuel(any_fold, 2);
    if args.len() == 0 {
        assert(args.push(e)[0] == e);
        assert(args.push(e).drop_first() =~= Seq::<AttrExpr>::empty());
        assert(any_fold(args.push(e)).0 =~= any_step(e).0);
        assert(any_fold(args.push(e)).1 =~= any_step(e).1);
        assert(any_fold(args).0 + any_step(e).0 =~= any_step(e).0);
        assert(any_fold(args).1 + any_step(e).1 =~= any_step(e).1);
    } else {
        assert(args.push(e)[0] == args[0]);
        assert(args.push(e).drop_first() =~= args.drop_first().push(e));
        lemma_any_fold_snoc(args.drop_first(), e);
        assert(any_fold(args.push(e)).0 =~= any_fold(args).0 + any_step(e).0);
        assert(any_fold(args.push(e)).1 =~= any_fold(args).1 + any_step(e).1);
    }
}

/// The source text of one candidate in a rendered policy.
pub open spec fn render_name(name: String) -> Seq<char> {
    "\""@ + name@ + "\".to_owned(),"@
}

/// The source text of a candidate list, in order.
pub open spec fn render_names(names: Seq<String>) -> Seq<char>
    decreases names.len(),
{
    if names.len() == 0 {
        Seq::empty()
    } else {
        render_name(names[0]) + render_names(names.drop_first())
    }
}

/// The source text of a link policy, as the generated call site embeds it: a
/// constructor of the runtime policy, or — for a reused aggregate — the name
/// of the user's binding.
pub open spec fn render_link(lt: LinkType) -> Seq<char> {
    match lt {
        LinkType::Vulkan => "LinkType::Vulkan"@,
        LinkType::General(libs) => "LinkType::Normal(vec!["@ + render_names(libs@) + "])"@,
        LinkType::Library(binding) => binding@,
    }
}

/// Rendering one more candidate appends its text.
pub proof fn lemma_render_names_snoc(names: Seq<String>, x: String)
    ensures
        render_names(names.push(x)) == render_names(names) + render_name(x),
    decreases names.len(),
{
    reveal_with_fuel(render_names, 2);
    if names.len() == 0 {
        assert(names.push(x)[0] == x);
        assert(names.push(x).drop_first() =~= Seq::<String>::empty());
        assert(render_name(x) + Seq::<char>::empty() =~= render_name(x));
        assert(Seq::<char>::empty() + render_name(x) =~= render_name(x));
    } else {
        assert(names.push(x)[0] == names[0]);
        assert(names.push(x).drop_first() =~= names.drop_first().push(x));
        lemma_render_names_snoc(names.drop_first(), x);
        assert(render_names(names.push(x)) =~= render_names(names) + render_name(x));
    }
}

impl LinkType {
    /// Renders the policy as the source text a generated call site embeds:
    /// the constructor expression of the runtime link policy.
    pub fn to_tokens(&self, tokens: &mut String)
        ensures
            final(tokens)@ == old(tokens)@ + render_link(*self),
    {
        match self {
            LinkType::Vulkan => {
                tokens.append("LinkType::Vulkan");
            },
            LinkType::General(libs) => {
                tokens.append("LinkType::Normal(vec![");
                let m = libs.len();
                let mut j: usize = 0;
                proof {
                    assert(libs@.subrange(0, 0) =~= Seq::<String>::empty());
                    assert(tokens@ =~= old(tokens)@ + "LinkType::Normal(vec!["@ + render_names(
                        libs@.subrange(0, 0),
                    ));
                }
                while j < m
                    invariant
                        j <= m,
                        m == libs@.len(),
                        tokens@ == old(tokens)@ + "LinkType::Normal(vec!["@ + render_names(
                            libs@.subrange(0, j as int),
                        ),
                    decreases m - j,
                {
                    tokens.append("\"");
                    tokens.append(libs[j].as_str());
                    tokens.append("\".to_owned(),");
                    proof {
                        lemma_render_names_snoc(libs@.subrange(0, j as int), libs@[j as int]);
                        assert(libs@.subrange(0, j as int).push(libs@[j as int]) =~= libs@.subrange(
                            0,
                            j as int + 1,
                        ));
                        assert(tokens@ =~= old(tokens)@ + "LinkType::Normal(vec!["@ + render_names(
                            libs@.subrange(0, j as int + 1),
                        ));
                    }
                    j = j + 1;
                }
                proof {
                    assert(libs@.subrange(0, m as int) =~= libs@);
                }
                tokens.append("])");
                proof {
                    assert(tokens@ =~= old(tokens)@ + ("LinkType::Normal(vec!["@ + render_names(
                        libs@,
                    ) + "])"@));
                }
            },
            LinkType::Library(binding) => {
                tokens.append(binding.as_str());
            },
        }
    }
}

impl MacroErrorKind {
    /// The diagnostic's wording.
    pub open spec fn message_spec(self) -> Seq<char> {
        match self {
            MacroErrorKind::ExpectedKeyword => "Expected `vulkan`, `any`, `strip`, or `name`."@,
            MacroErrorKind::LinkageAlreadyDefined => "Linkage already defined."@,
            MacroErrorKind::ExpectedStringLiteral => "Expected string literal."@,
            MacroErrorKind::ExpectedBooleanLiteral => "Expected boolean literal."@,
            MacroErrorKind::ExpectedIdentifier => "Expected identifier."@,
            MacroErrorKind::StripAlreadyDefined => "strip is already defined"@,
            MacroErrorKind::LinkerAlreadyDefined => "linker is already defined"@,
            MacroErrorKind::LinkNameAlreadyDefined => "link_name is already defined"@,
            MacroErrorKind::ExpectedAnyFunction => "Expected function `any`."@,
            MacroErrorKind::ExpectedNameIdentifier => "expected identifier `name`."@,
            MacroErrorKind::ExpectedNameAssignment => "Expected `name = <string>`."@,
            MacroErrorKind::EmptyAnyList => "No arguments detected."@,
            MacroErrorKind::NoLinkageSpecified
                => "No linkage detected. Suggested: use `vulkan` or `name = <string>` for linkage."@,
        }
    }

    /// The diagnostic's wording, for rendering.
    pub fn message(&self) -> (m: String)
        ensures
            m@ == self.message_spec(),
    {
        match self {
            MacroErrorKind::ExpectedKeyword => "Expected `vulkan`, `any`, `strip`, or `name`."
                .to_owned(),
            MacroErrorKind::LinkageAlreadyDefined => "Linkage already defined.".to_owned(),
            MacroErrorKind::ExpectedStringLiteral => "Expected string literal.".to_owned(),
            MacroErrorKind::ExpectedBooleanLiteral => "Expected boolean literal.".to_owned(),
            MacroErrorKind::ExpectedIdentifier => "Expected identifier.".to_owned(),
            MacroErrorKind::StripAlreadyDefined => "strip is already defined".to_owned(),
            MacroErrorKind::LinkerAlreadyDefined => "linker is already defined".to_owned(),
            MacroErrorKind::LinkNameAlreadyDefined => "link_name is already defined".to_owned(),
            MacroErrorKind::ExpectedAnyFunction => "Expected function `any`.".to_owned(),
            MacroErrorKind::ExpectedNameIdentifier => "expected identifier `name`.".to_owned(),
            MacroErrorKind::ExpectedNameAssignment => "Expected `name = <string>`.".to_owned(),
            MacroErrorKind::EmptyAnyList => "No arguments detected.".to_owned(),
            MacroErrorKind::NoLinkageSpecified
                => "No linkage detected. Suggested: use `vulkan` or `name = <string>` for linkage."
                .to_owned(),
        }
    }
}

/// One step never discards a diagnostic: it extends the error list.
pub proof fn lemma_step_errors_monotone(st: ParseState, e: AttrExpr)
    ensures
        step_spec(st, e).errors.len() >= st.errors.len(),
        forall|k: int| 0 <= k < st.errors.len() ==> step_spec(st, e).errors[k] == st.errors[k],
{
}

/// A fold never discards a diagnostic.
pub proof fn lemma_fold_errors_monotone(st: ParseState, args: Seq<AttrExpr>)
    ensures
        fold_args(st, args).errors.len() >= st.errors.len(),
        forall|k: int| 0 <= k < st.errors.len() ==> fold_args(st, args).errors[k] == st.errors[k],
    decreases args.len(),
{
    if args.len() > 0 {
        lemma_step_errors_monotone(st, args[0]);
        lemma_fold_errors_monotone(step_spec(st, args[0]), args.drop_first());
    }
}

/// Folding a concatenation folds the parts in order.
pub proof fn lemma_fold_args_concat(st: ParseState, a: Seq<AttrExpr>, b: Seq<AttrExpr>)
    ensures
        fold_args(st, a + b) == fold_args(fold_args(st, a), b),
    decreases a.len(),
{
    if a.len() == 0 {
        assert(a + b =~= b);
    } else {
        assert((a + b)[0] == a[0]);
        assert((a + b).drop_first() =~= a.drop_first() + b);
        lemma_fold_args_concat(step_spec(st, a[0]), a.drop_first(), b);
    }
}

/// An `any(...)` with no arguments is rejected: an option set that contains
/// an empty `any` call never parses, whatever else it contains.
pub proof fn lemma_empty_any_rejected(args: Seq<AttrExpr>, k: int)
    requires
        0 <= k < args.len(),
        args[k] matches AttrExpr::Call(callee, inner) && callee@ == "any"@ && inner@.len() == 0,
    ensures
        parse_result(args).errors.len() > 0,
{
    let prefix = args.subrange(0, k);
    let rest = args.subrange(k, args.len() as int);
    assert(args =~= prefix + rest);
    lemma_fold_args_concat(init_state(), prefix, rest);
    let st0 = fold_args(init_state(), prefix);
    assert(rest[0] == args[k]);
    let stepped = step_spec(st0, rest[0]);
    assert(stepped.errors.len() > st0.errors.len()) by {
        match args[k] {
            AttrExpr::Call(callee, inner) => {
                assert(any_fold(inner@).1 =~= Seq::<MacroErrorKind>::empty());
                assert(st0.errors + any_fold(inner@).1 =~= st0.errors);
            },
            _ => {
                assert(false);
            },
        }
    }
    assert(fold_args(st0, rest) == fold_args(stepped, rest.drop_first()));
    lemma_fold_errors_monotone(stepped, rest.drop_first());
}

/// The option keywords are pairwise distinct (their lengths already differ).
pub proof fn lemma_keywords_distinct()
    ensures
        "name"@ != "strip"@,
        "name"@ != "linker"@,
        "name"@ != "library"@,
        "name"@ != "link_name"@,
        "strip"@ != "linker"@,
        "strip"@ != "library"@,
        "strip"@ != "link_name"@,
        "linker"@ != "library"@,
        "linker"@ != "link_name"@,
        "library"@ != "link_name"@,
{
    reveal_strlit("name");
    reveal_strlit("strip");
    reveal_strlit("linker");
    reveal_strlit("library");
    reveal_strlit("link_name");
    assert("name"@.len() == 4);
    assert("strip"@.len() == 5);
    assert("linker"@.len() == 6);
    assert("library"@.len() == 7);
    assert("link_name"@.len() == 9);
}

/// Whether a string equals a keyword.
fn is_kw(s: &String, kw: &str) -> (r: bool)
    ensures
        r == (s@ == kw@),
{
    *s == kw.to_owned()
}

/// The exec-side counterpart of an optional link policy's value.
pub open spec fn opt_link_view(l: Option<LinkType>) -> Option<LinkSpec> {
    match l {
        None => None,
        Some(t) => Some(t@),
    }
}

impl AttrData {
    /// Parses an attribute's option set.  Returns the parsed options exactly
    /// when the fold raised no diagnostic, and the raised diagnostics, in
    /// order, otherwise.
    pub fn try_from(args: &Vec<AttrExpr>) -> (r: Result<AttrData, Vec<MacroErrorKind>>)
        ensures
            ({
                let st = parse_result(args@);
                match r {
                    Ok(d) => {
                        &&& st.errors.len() == 0
                        &&& st.link == Some(d@.link)
                        &&& d@.strip == (match st.strip {
                            Some(b) => b,
                            None => false,
                        })
                        &&& d@.linker == st.linker
                        &&& d@.link_name == st.link_name
                    },
                    Err(es) => {
                        &&& st.errors.len() > 0
                        &&& es@ == st.errors
                    },
                }
            }),
    {
        let mut strip: Option<bool> = None;
        let mut link: Option<LinkType> = None;
        let mut linker: Option<String> = None;
        let mut link_name: Option<String> = None;
        let mut errors: Vec<MacroErrorKind> = Vec::new();

        let n = args.len();
        let mut i: usize = 0;
        proof {
            assert(args@.subrange(0, 0) =~= Seq::<AttrExpr>::empty());
        }
        while i < n
            invariant
                i <= n,
                n == args@.len(),
                ({
                    let st = fold_args(init_state(), args@.subrange(0, i as int));
                    &&& st.strip == strip
                    &&& st.link == opt_link_view(link)
                    &&& st.linker == linker
                    &&& st.link_name == link_name
                    &&& st.errors == errors@
                }),
            decreases n - i,
        {
            let ghost pre = fold_args(init_state(), args@.subrange(0, i as int));
            match &args[i] {
                AttrExpr::Path(p) => {
                    if is_kw(p, "vulkan") {
                        if link.is_none() {
                            link = Some(LinkType::Vulkan);
                        } else {
                            errors.push(MacroErrorKind::LinkageAlreadyDefined);
                        }
                    } else {
                        errors.push(MacroErrorKind::ExpectedKeyword);
                    }
                },
                AttrExpr::Assign(left, right) => {
                    if is_kw(left, "name") {
                        match right {
                            AttrLit::Str(s) => {
                                if link.is_none() {
                                    let mut one: Vec<String> = Vec::new();
                                    one.push(s.clone());
                                    proof {
                                        assert(one@ =~= seq![*s]);
                                    }
                                    link = Some(LinkType::General(one));
                                } else {
                                    errors.push(MacroErrorKind::LinkageAlreadyDefined);
                                }
                            },
                            _ => {
                                errors.push(MacroErrorKind::ExpectedStringLiteral);
                            },
                        }
                    } else if is_kw(left, "strip") {
                        match right {
                            AttrLit::Bool(b) => {
                                if strip.is_none() {
                                    strip = Some(*b);
                                } else {
                                    errors.push(MacroErrorKind::StripAlreadyDefined);
                                }
                            },
                            _ => {
                                errors.push(MacroErrorKind::ExpectedBooleanLiteral);
                            },
                        }
                    } else if is_kw(left, "linker") {
                        match right {
                            AttrLit::Ident(id) => {
                                if linker.is_none() {
                                    linker = Some(id.clone());
                                } else {
                                    errors.push(MacroErrorKind::LinkerAlreadyDefined);
                                }
                            },
                            _ => {
                                errors.push(MacroErrorKind::ExpectedIdentifier);
                            },
                        }
                    } else if is_kw(left, "library") {
                        match right {
                            AttrLit::Ident(binding) => {
                                if link.is_none() {
                                    link = Some(LinkType::Library(binding.clone()));
                                } else {
                                    errors.push(MacroErrorKind::LinkageAlreadyDefined);
                                }
                            },
                            _ => {
                                errors.push(MacroErrorKind::ExpectedIdentifier);
                            },
                        }
                    } else if is_kw(left, "link_name") {
                        match right {
                            AttrLit::Str(s) => {
                                if link_name.is_none() {
                                    link_name = Some(s.clone());
                                } else {
                                    errors.push(MacroErrorKind::LinkNameAlreadyDefined);
                                }
                            },
                            _ => {
                                errors.push(MacroErrorKind::ExpectedStringLiteral);
                            },
                        }
                    } else {
                        errors.push(MacroErrorKind::ExpectedKeyword);
                    }
                },
                AttrExpr::Call(callee, cargs) => {
                    if is_kw(callee, "any") {
                        let mut libs: Vec<String> = Vec::new();
                        let mut errs: Vec<MacroErrorKind> = Vec::new();
                        let m = cargs.len();
                        let mut j: usize = 0;
                        proof {
                            assert(cargs@.subrange(0, 0) =~= Seq::<AttrExpr>::empty());
                            assert(any_fold(cargs@.subrange(0, 0)).0 =~= libs@);
                            assert(any_fold(cargs@.subrange(0, 0)).1 =~= errs@);
                        }
                        while j < m
                            invariant
                                j <= m,
                                m == cargs@.len(),
                                any_fold(cargs@.subrange(0, j as int)).0 == libs@,
                                any_fold(cargs@.subrange(0, j as int)).1 == errs@,
                            decreases m - j,
                        {
                            match &cargs[j] {
                                AttrExpr::Assign(l, r) => {
                                    if !is_kw(l, "name") {
                                        errs.push(MacroErrorKind::ExpectedNameIdentifier);
                                    }
                                    match r {
                                        AttrLit::Str(s) => {
                                            libs.push(s.clone());
                                        },
                                        _ => {
                                            errs.push(MacroErrorKind::ExpectedStringLiteral);
                                        },
                                    }
                                },
                                _ => {
                                    errs.push(MacroErrorKind::ExpectedNameAssignment);
                                },
                            }
                            proof {
                                assert(cargs@.subrange(0, j as int + 1) =~= cargs@.subrange(
                                    0,
                                    j as int,
                                ).push(cargs@[j as int]));
                                lemma_any_fold_snoc(cargs@.subrange(0, j as int), cargs@[j as int]);
                            }
                            j = j + 1;
                        }
                        proof {
                            assert(cargs@.subrange(0, m as int) =~= cargs@);
                        }
                        errors.append(&mut errs);
                        if libs.len() == 0 {
                            errors.push(MacroErrorKind::EmptyAnyList);
                        } else if link.is_none() {
                            link = Some(LinkType::General(libs));
                        } else {
                            errors.push(MacroErrorKind::LinkageAlreadyDefined);
                        }
                    } else {
                        errors.push(MacroErrorKind::ExpectedAnyFunction);
                    }
                },
                AttrExpr::Other => {
                    errors.push(MacroErrorKind::ExpectedKeyword);
                },
            }
            proof {
                assert(args@.subrange(0, i as int + 1) =~= args@.subrange(0, i as int).push(
                    args@[i as int],
                ));
                lemma_fold_args_snoc(init_state(), args@.subrange(0, i as int), args@[i as int]);
            }
            i = i + 1;
        }
        proof {
            assert(args@.subrange(0, n as int) =~= args@);
        }

        match link {
            None => {
                errors.push(MacroErrorKind::NoLinkageSpecified);
                Err(errors)
            },
            Some(lt) => {
                if errors.len() > 0 {
                    Err(errors)
                } else {
                    let strip_val = match strip {
                        Some(b) => b,
                        None => false,
                    };
                    Ok(AttrData { strip: strip_val, link_ty: lt, linker, link_name })
                }
            },
        }
    }

    /// Serializes the parsed options back into an option set.  Re-parsing
    /// the result succeeds and recovers the same strip flag, link policy,
    /// linker and link name: parsing, serializing and re-parsing is the
    /// identity on parsed option data.
    pub fn to_args(&self) -> (r: Vec<AttrExpr>)
        requires
            self.wf(),
        ensures
            ({
                let st = parse_result(r@);
                &&& st.errors.len() == 0
                &&& st.link == Some(self@.link)
                &&& st.strip == Some(self@.strip)
                &&& st.linker == self@.linker
                &&& st.link_name == self@.link_name
            }),
    {
        let mut out: Vec<AttrExpr> = Vec::new();
        match &self.link_ty {
            LinkType::Vulkan => {
                out.push(AttrExpr::Path("vulkan".to_owned()));
            },
            LinkType::General(libs) => {
                if libs.len() == 1 {
                    out.push(
                        AttrExpr::Assign("name".to_owned(), AttrLit::Str(libs[0].clone())),
                    );
                    proof {
                        assert(seq![libs@[0]] =~= libs@);
                    }
                } else {
                    let mut items: Vec<AttrExpr> = Vec::new();
                    let m = libs.len();
                    let mut j: usize = 0;
                    proof {
                        assert(libs@.subrange(0, 0) =~= Seq::<String>::empty());
                        assert(any_fold(items@).0 =~= libs@.subrange(0, 0));
                        assert(any_fold(items@).1 =~= Seq::<MacroErrorKind>::empty());
                    }
                    while j < m
                        invariant
                            j <= m,
                            m == libs@.len(),
                            any_fold(items@).0 == libs@.subrange(0, j as int),
                            any_fold(items@).1 == Seq::<MacroErrorKind>::empty(),
                        decreases m - j,
                    {
                        let e = AttrExpr::Assign(
                            "name".to_owned(),
                            AttrLit::Str(libs[j].clone()),
                        );
                        proof {
                            lemma_any_fold_snoc(items@, e);
                            assert(any_step(e).0 =~= seq![libs@[j as int]]);
                            assert(any_step(e).1 =~= Seq::<MacroErrorKind>::empty());
                            assert(libs@.subrange(0, j as int).push(libs@[j as int])
                                =~= libs@.subrange(0, j as int + 1));
                            assert(any_fold(items@).0 + any_step(e).0 =~= libs@.subrange(
                                0,
                                j as int + 1,
                            ));
                            assert(any_fold(items@).1 + any_step(e).1
                                =~= Seq::<MacroErrorKind>::empty());
                        }
                        items.push(e);
                        j = j + 1;
                    }
                    proof {
                        assert(libs@.subrange(0, m as int) =~= libs@);
                    }
                    out.push(AttrExpr::Call("any".to_owned(), items));
                }
            },
            LinkType::Library(binding) => {
                out.push(
                    AttrExpr::Assign("library".to_owned(), AttrLit::Ident(binding.clone())),
                );
            },
        }
        let ghost first = out@[0];
        proof {
            lemma_keywords_distinct();
            assert(out@ =~= Seq::<AttrExpr>::empty().push(first));
            lemma_fold_args_snoc(init_state(), Seq::<AttrExpr>::empty(), first);
            let st = fold_args(init_state(), out@);
            assert(st.link == Some(self@.link));
            assert(st.strip is None);
            assert(st.linker is None);
            assert(st.link_name is None);
            assert(st.errors =~= Seq::<MacroErrorKind>::empty());
        }
        let e_strip = AttrExpr::Assign("strip".to_owned(), AttrLit::Bool(self.strip));
        let ghost st1 = fold_args(init_state(), out@);
        proof {
            lemma_fold_args_snoc(init_state(), out@, e_strip);
        }
        out.push(e_strip);
        proof {
            lemma_keywords_distinct();
            assert(fold_args(init_state(), out@) == step_spec(st1, e_strip));
            assert(st1.strip is None);
            let st = fold_args(init_state(), out@);
            assert(st.link == Some(self@.link));
            assert(st.strip == Some(self@.strip));
            assert(st.linker is None);
            assert(st.link_name is None);
            assert(st.errors =~= Seq::<MacroErrorKind>::empty());
        }
        match &self.linker {
            Some(id) => {
                let e_linker = AttrExpr::Assign(
                    "linker".to_owned(),
                    AttrLit::Ident(id.clone()),
                );
                proof {
                    lemma_fold_args_snoc(init_state(), out@, e_linker);
                }
                out.push(e_linker);
                proof {
                    lemma_keywords_distinct();
                    let st = fold_args(init_state(), out@);
                    assert(st.link == Some(self@.link));
                    assert(st.strip == Some(self@.strip));
                    assert(st.linker == self@.linker);
                    assert(st.link_name is None);
                    assert(st.errors =~= Seq::<MacroErrorKind>::empty());
                }
            },
            None => {},
        }
        match &self.link_name {
            Some(symbol) => {
                let e_link_name = AttrExpr::Assign(
                    "link_name".to_owned(),
                    AttrLit::Str(symbol.clone()),
                );
                proof {
                    lemma_fold_args_snoc(init_state(), out@, e_link_name);
                }
                out.push(e_link_name);
                proof {
                    lemma_keywords_distinct();
                    let st = fold_args(init_state(), out@);
                    assert(st.link == Some(self@.link));
                    assert(st.strip == Some(self@.strip));
                    assert(st.linker == self@.linker);
                    assert(st.link_name == self@.link_name);
                    assert(st.errors =~= Seq::<MacroErrorKind>::empty());
                }
            },
            None => {},
        }
        out
    }
}

} // verus!
