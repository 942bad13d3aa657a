//! The C-style renderer: one kernel of source text from a sequence of
//! micro-ops, written with the tokens of a backend's dialect.
//!
//! The text is a function of the micro-ops, the kernel's name, the language
//! options and the backend's lowering overrides, and of nothing else.

use crate::codegen::linearizer::UOp;
use crate::dtype::DtypeKind;
use crate::ops::{BinaryOp, Op, ReduceOp, UnaryOp};
use crate::text::{decimal, decimal_string, signed_decimal, signed_decimal_string};
use vstd::prelude::*;
use vstd::string::*;

verus! {

/// The tokens of one backend's kernel dialect.
#[derive(Debug, PartialEq, Eq)]
pub struct LanguageOpts {
    /// What a kernel declaration opens with.
    pub kernel_prefix: String,
    /// The storage qualifier of a buffer argument.
    pub buffer_prefix: String,
    /// The alignment of work-group local memory.
    pub smem_align: String,
    /// The storage qualifier of work-group local memory.
    pub smem_prefix: String,
    /// The type of a scalar integer argument.
    pub arg_int_prefix: String,
    /// What enables half precision, on a line before the kernel.
    pub half_prekernel: Option<String>,
    /// The barrier call.
    pub barrier: String,
    /// What constructs a vector of four elements.
    pub float4: Option<String>,
    /// The accessor of the work-group id, one for each dimension.
    pub gid: Vec<String>,
    /// The accessor of the work-item id, one for each dimension.
    pub lid: Vec<String>,
    /// Whether vectors are loaded with a vector load.
    pub uses_vload: bool,
}

/// The mathematical content of [`LanguageOpts`].
pub struct LanguageOptsView {
    pub kernel_prefix: Seq<char>,
    pub buffer_prefix: Seq<char>,
    pub smem_align: Seq<char>,
    pub smem_prefix: Seq<char>,
    pub arg_int_prefix: Seq<char>,
    pub half_prekernel: Option<Seq<char>>,
    pub barrier: Seq<char>,
    pub float4: Option<Seq<char>>,
    pub gid: Seq<Seq<char>>,
    pub lid: Seq<Seq<char>>,
    pub uses_vload: bool,
}

/// The texts a list of strings holds.
pub open spec fn texts(strings: Seq<String>) -> Seq<Seq<char>> {
    Seq::new(strings.len(), |i: int| strings[i]@)
}

/// The text an optional string holds.
pub open spec fn optional_text(string: Option<String>) -> Option<Seq<char>> {
    match string {
        Some(s) => Some(s@),
        None => None,
    }
}

impl View for LanguageOpts {
    type V = LanguageOptsView;

    open spec fn view(&self) -> LanguageOptsView {
        LanguageOptsView {
            kernel_prefix: self.kernel_prefix@,
            buffer_prefix: self.buffer_prefix@,
            smem_align: self.smem_align@,
            smem_prefix: self.smem_prefix@,
            arg_int_prefix: self.arg_int_prefix@,
            half_prekernel: optional_text(self.half_prekernel),
            barrier: self.barrier@,
            float4: optional_text(self.float4),
            gid: texts(self.gid@),
            lid: texts(self.lid@),
            uses_vload: self.uses_vload,
        }
    }
}

impl Default for LanguageOpts {
    /// A dialect without tokens: every text empty, nothing optional given.
    fn default() -> (opts: LanguageOpts)
        ensures
            opts@ == (LanguageOptsView {
                kernel_prefix: Seq::empty(),
                buffer_prefix: Seq::empty(),
                smem_align: Seq::empty(),
                smem_prefix: Seq::empty(),
                arg_int_prefix: Seq::empty(),
                half_prekernel: None,
                barrier: Seq::empty(),
                float4: None,
                gid: Seq::empty(),
                lid: Seq::empty(),
                uses_vload: false,
            }),
    {
        let opts = LanguageOpts {
            kernel_prefix: String::new(),
            buffer_prefix: String::new(),
            smem_align: String::new(),
            smem_prefix: String::new(),
            arg_int_prefix: String::new(),
            half_prekernel: None,
            barrier: String::new(),
            float4: None,
            gid: Vec::new(),
            lid: Vec::new(),
            uses_vload: false,
        };
        assert(opts@.gid =~= Seq::empty());
        assert(opts@.lid =~= Seq::empty());
        opts
    }
}

/// A backend's rendering configuration: its dialect, and its lowering
/// overrides.
pub trait Renderer: Op {
    /// The dialect of the backend.
    spec fn language(&self) -> LanguageOptsView;

    /// The dialect of the backend.
    fn lang_opts(&self) -> (opts: &LanguageOpts)
        ensures
            opts@ == self.language(),
    ;
}

/// A renderer for any dialect that has no lowering of its own: a fused
/// multiply-add is written as a product and a sum.
#[derive(Debug, PartialEq, Eq)]
pub struct GenericRenderer {
    /// The dialect.
    pub opts: LanguageOpts,
}

impl Op for GenericRenderer {
    /// The generic expansion: `((a*b)+c)`.
    open spec fn mulacc_text(&self, a: Seq<char>, b: Seq<char>, c: Seq<char>) -> Seq<char> {
        "(("@ + a + "*"@ + b + ")+"@ + c + ")"@
    }

    fn mulacc(&self, a: &str, b: &str, c: &str) -> (text: String) {
        String::from_str("((").concat(a).concat("*").concat(b).concat(")+").concat(c).concat(")")
    }
}

impl Renderer for GenericRenderer {
    open spec fn language(&self) -> LanguageOptsView {
        self.opts@
    }

    fn lang_opts(&self) -> (opts: &LanguageOpts) {
        &self.opts
    }
}

/// The name of an element type in kernel source.
pub open spec fn scalar_text(kind: DtypeKind) -> Seq<char> {
    match kind {
        DtypeKind::Bool => "bool"@,
        DtypeKind::Int8 => "char"@,
        DtypeKind::UInt8 => "uchar"@,
        DtypeKind::Int16 => "short"@,
        DtypeKind::UInt16 => "ushort"@,
        DtypeKind::Half => "half"@,
        DtypeKind::Int32 => "int"@,
        DtypeKind::UInt32 => "uint"@,
        DtypeKind::Float => "float"@,
        DtypeKind::Int64 => "long"@,
        DtypeKind::UInt64 => "ulong"@,
        DtypeKind::Double => "double"@,
    }
}

/// The element type a kernel computes on: that of the first buffer it
/// declares, and `float` where it declares none.
pub open spec fn kernel_kind(uops: Seq<UOp>) -> DtypeKind
    decreases uops.len(),
{
    if uops.len() == 0 {
        DtypeKind::Float
    } else {
        match uops[0] {
            UOp::DefineGlobal { dtype, .. } => dtype,
            _ => kernel_kind(uops.skip(1)),
        }
    }
}

/// The name of the value that the micro-op at `position` produces.
pub open spec fn value(position: nat) -> Seq<char> {
    "val"@ + decimal(position)
}

/// The text of an operation of one operand.
pub open spec fn unary_text(op: UnaryOp, a: Seq<char>) -> Seq<char> {
    match op {
        UnaryOp::Neg => "(-"@ + a + ")"@,
        UnaryOp::Exp2 => "exp2("@ + a + ")"@,
        UnaryOp::Log2 => "log2("@ + a + ")"@,
        UnaryOp::Sin => "sin("@ + a + ")"@,
        UnaryOp::Sqrt => "sqrt("@ + a + ")"@,
        UnaryOp::Recip => "(1/"@ + a + ")"@,
    }
}

/// The text of an operation of two operands.
pub open spec fn binary_text(op: BinaryOp, a: Seq<char>, b: Seq<char>) -> Seq<char> {
    match op {
        BinaryOp::Add => "("@ + a + "+"@ + b + ")"@,
        BinaryOp::Sub => "("@ + a + "-"@ + b + ")"@,
        BinaryOp::Mul => "("@ + a + "*"@ + b + ")"@,
        BinaryOp::Div => "("@ + a + "/"@ + b + ")"@,
        BinaryOp::Max => "max("@ + a + ","@ + b + ")"@,
        BinaryOp::Less => "("@ + a + "<"@ + b + ")"@,
    }
}

/// The operation of two operands that a reduction folds with.
pub open spec fn folding(op: ReduceOp) -> BinaryOp {
    match op {
        ReduceOp::Sum => BinaryOp::Add,
        ReduceOp::Max => BinaryOp::Max,
    }
}

/// The accessor of the work-group id, or of the work-item id, in the
/// dimension `dim`: the one the dialect gives for the dimension, and `0`
/// where it gives none.
pub open spec fn accessor(opts: LanguageOptsView, local: bool, dim: usize) -> Seq<char> {
    let ids = if local {
        opts.lid
    } else {
        opts.gid
    };
    if dim < ids.len() {
        ids[dim as int]
    } else {
        "0"@
    }
}

/// The name of the variable that holds a work-group or work-item id.
pub open spec fn index_name(local: bool, dim: usize) -> Seq<char> {
    (if local {
        "lidx"@
    } else {
        "gidx"@
    }) + decimal(dim as nat)
}

/// Whether a micro-op declares an argument of the kernel.
pub open spec fn is_param(uop: UOp) -> bool {
    uop is DefineGlobal || uop is DefineArg
}

/// The declaration of one argument of the kernel.
pub open spec fn param_text(opts: LanguageOptsView, uop: UOp) -> Seq<char> {
    match uop {
        UOp::DefineGlobal { buffer, dtype } => opts.buffer_prefix + scalar_text(dtype) + "* data"@
            + decimal(buffer as nat),
        UOp::DefineArg { index } => opts.arg_int_prefix + " arg"@ + decimal(index as nat),
        _ => Seq::empty(),
    }
}

/// Whether one of the micro-ops declares an argument.
pub open spec fn any_param(uops: Seq<UOp>) -> bool
    decreases uops.len(),
{
    if uops.len() == 0 {
        false
    } else {
        is_param(uops.last()) || any_param(uops.drop_last())
    }
}

/// The argument list of the kernel: the declarations of its arguments in
/// the order of the micro-ops, separated by a comma and a space.
pub open spec fn params_text(opts: LanguageOptsView, uops: Seq<UOp>) -> Seq<char>
    decreases uops.len(),
{
    if uops.len() == 0 {
        Seq::empty()
    } else {
        let before = params_text(opts, uops.drop_last());
        if is_param(uops.last()) {
            before + (if any_param(uops.drop_last()) {
                ", "@
            } else {
                Seq::empty()
            }) + param_text(opts, uops.last())
        } else {
            before
        }
    }
}

/// The statement of one micro-op that stands at `position` in a kernel
/// whose elements are of the type `kind`. A micro-op that declares an
/// argument has no statement.
pub open spec fn statement<R: Renderer>(
    renderer: &R,
    kind: DtypeKind,
    position: nat,
    uop: UOp,
) -> Seq<char> {
    let opts = renderer.language();
    let declare = scalar_text(kind) + " "@ + value(position) + " = "@;
    match uop {
        UOp::DefineGlobal { .. } | UOp::DefineArg { .. } => Seq::empty(),
        UOp::Special { local, dim } => "int "@ + index_name(local, dim) + " = "@ + accessor(
            opts,
            local,
            dim,
        ) + ";"@,
        UOp::DefineLocal { size } => opts.smem_align + opts.smem_prefix + scalar_text(kind)
            + " temp["@ + decimal(size as nat) + "];"@,
        UOp::Load { buffer } => declare + "data"@ + decimal(buffer as nat) + "[gidx0];"@,
        UOp::Arg { index } => declare + "arg"@ + decimal(index as nat) + ";"@,
        UOp::Const { value } => declare + signed_decimal(value as int) + ";"@,
        UOp::Unary { op, src } => declare + unary_text(op, value(src as nat)) + ";"@,
        UOp::Binary { op, lhs, rhs } => declare + binary_text(
            op,
            value(lhs as nat),
            value(rhs as nat),
        ) + ";"@,
        UOp::MulAcc { a, b, c } => declare + renderer.mulacc_text(
            value(a as nat),
            value(b as nat),
            value(c as nat),
        ) + ";"@,
        UOp::StoreLocal { src } => "temp[lidx0] = "@ + value(src as nat) + ";"@,
        UOp::Barrier => opts.barrier,
        UOp::ReduceLocal { op, size } => declare + "temp[0]; for (int i = 1; i < "@ + decimal(
            size as nat,
        ) + "; i++) { "@ + value(position) + " = "@ + binary_text(
            folding(op),
            value(position),
            "temp[i]"@,
        ) + "; }"@,
        UOp::Store { buffer, src } => "data"@ + decimal(buffer as nat) + "[gidx0] = "@ + value(
            src as nat,
        ) + ";"@,
    }
}

/// The body of the kernel up to the micro-op at `upto`: the statement of
/// each micro-op before it that has one, indented by two spaces, one to a
/// line.
pub open spec fn body_text<R: Renderer>(
    renderer: &R,
    kind: DtypeKind,
    uops: Seq<UOp>,
    upto: nat,
) -> Seq<char>
    decreases upto,
{
    if upto == 0 {
        Seq::empty()
    } else {
        let before = body_text(renderer, kind, uops, (upto - 1) as nat);
        if is_param(uops[upto - 1]) {
            before
        } else {
            before + "  "@ + statement(renderer, kind, (upto - 1) as nat, uops[upto - 1]) + "\n"@
        }
    }
}

/// What stands before the kernel: the line that enables half precision,
/// where the kernel computes on halves and the dialect has such a line.
pub open spec fn preamble(opts: LanguageOptsView, kind: DtypeKind) -> Seq<char> {
    match opts.half_prekernel {
        Some(line) if kind == DtypeKind::Half => line + "\n"@,
        _ => Seq::empty(),
    }
}

/// The source text of the kernel `name` made of `uops`, in the dialect and
/// with the overrides of `renderer`.
pub open spec fn cstyle_source<R: Renderer>(renderer: &R, name: Seq<char>, uops: Seq<UOp>) -> Seq<
    char,
> {
    let opts = renderer.language();
    let kind = kernel_kind(uops);
    preamble(opts, kind) + opts.kernel_prefix + "void "@ + name + "("@ + params_text(opts, uops)
        + ") {\n"@ + body_text(renderer, kind, uops, uops.len()) + "}"@
}

/// Determinism: the source text depends on the micro-ops, the name, the
/// dialect and the fused multiply-add of the backend, and on nothing else.
/// Two renderers with the same dialect and the same override give the same
/// text for the same kernel.
pub proof fn lemma_rendering_is_deterministic<R: Renderer, S: Renderer>(
    first: &R,
    second: &S,
    name: Seq<char>,
    uops: Seq<UOp>,
)
    requires
        first.language() == second.language(),
        forall|a: Seq<char>, b: Seq<char>, c: Seq<char>|
            first.mulacc_text(a, b, c) == second.mulacc_text(a, b, c),
    ensures
        cstyle_source(first, name, uops) == cstyle_source(second, name, uops),
{
    let kind = kernel_kind(uops);
    lemma_same_body(first, second, kind, uops, uops.len());
}

proof fn lemma_same_body<R: Renderer, S: Renderer>(
    first: &R,
    second: &S,
    kind: DtypeKind,
    uops: Seq<UOp>,
    upto: nat,
)
    requires
        first.language() == second.language(),
        forall|a: Seq<char>, b: Seq<char>, c: Seq<char>|
            first.mulacc_text(a, b, c) == second.mulacc_text(a, b, c),
    ensures
        body_text(first, kind, uops, upto) == body_text(second, kind, uops, upto),
    decreases upto,
{
    if upto > 0 {
        lemma_same_body(first, second, kind, uops, (upto - 1) as nat);
    }
}

/// The name of an element type in kernel source.
fn scalar_str(kind: DtypeKind) -> (name: &'static str)
    ensures
        name@ == scalar_text(kind),
{
    match kind {
        DtypeKind::Bool => "bool",
        DtypeKind::Int8 => "char",
        DtypeKind::UInt8 => "uchar",
        DtypeKind::Int16 => "short",
        DtypeKind::UInt16 => "ushort",
        DtypeKind::Half => "half",
        DtypeKind::Int32 => "int",
        DtypeKind::UInt32 => "uint",
        DtypeKind::Float => "float",
        DtypeKind::Int64 => "long",
        DtypeKind::UInt64 => "ulong",
        DtypeKind::Double => "double",
    }
}

/// Finds the element type a kernel computes on.
fn find_kind(uops: &Vec<UOp>) -> (kind: DtypeKind)
    ensures
        kind == kernel_kind(uops@),
{
    let mut i: usize = 0;
    assert(uops@.skip(0) =~= uops@);
    while i < uops.len()
        invariant
            i <= uops.len(),
            kernel_kind(uops@) == kernel_kind(uops@.skip(i as int)),
        decreases uops.len() - i,
    {
        match uops[i] {
            UOp::DefineGlobal { dtype, .. } => {
                return dtype;
            },
            _ => {},
        }
        assert(uops@.skip(i as int).skip(1) =~= uops@.skip(i + 1));
        i += 1;
    }
    DtypeKind::Float
}

/// Names the value that the micro-op at `position` produces.
fn value_name(position: usize) -> (name: String)
    ensures
        name@ == value(position as nat),
{
    let digits = decimal_string(position as u64);
    String::from_str("val").concat(digits.as_str())
}

/// Writes an operation of one operand.
fn unary_string(op: UnaryOp, a: &str) -> (text: String)
    ensures
        text@ == unary_text(op, a@),
{
    match op {
        UnaryOp::Neg => String::from_str("(-").concat(a).concat(")"),
        UnaryOp::Exp2 => String::from_str("exp2(").concat(a).concat(")"),
        UnaryOp::Log2 => String::from_str("log2(").concat(a).concat(")"),
        UnaryOp::Sin => String::from_str("sin(").concat(a).concat(")"),
        UnaryOp::Sqrt => String::from_str("sqrt(").concat(a).concat(")"),
        UnaryOp::Recip => String::from_str("(1/").concat(a).concat(")"),
    }
}

/// Writes an operation of two operands.
fn binary_string(op: BinaryOp, a: &str, b: &str) -> (text: String)
    ensures
        text@ == binary_text(op, a@, b@),
{
    match op {
        BinaryOp::Add => String::from_str("(").concat(a).concat("+").concat(b).concat(")"),
        BinaryOp::Sub => String::from_str("(").concat(a).concat("-").concat(b).concat(")"),
        BinaryOp::Mul => String::from_str("(").concat(a).concat("*").concat(b).concat(")"),
        BinaryOp::Div => String::from_str("(").concat(a).concat("/").concat(b).concat(")"),
        BinaryOp::Max => String::from_str("max(").concat(a).concat(",").concat(b).concat(")"),
        BinaryOp::Less => String::from_str("(").concat(a).concat("<").concat(b).concat(")"),
    }
}

/// The operation of two operands that a reduction folds with.
fn folding_op(op: ReduceOp) -> (with: BinaryOp)
    ensures
        with == folding(op),
{
    match op {
        ReduceOp::Sum => BinaryOp::Add,
        ReduceOp::Max => BinaryOp::Max,
    }
}

/// Picks the accessor of a work-group or work-item id.
fn accessor_str(opts: &LanguageOpts, local: bool, dim: usize) -> (text: &str)
    ensures
        text@ == accessor(opts@, local, dim),
{
    if local {
        if dim < opts.lid.len() {
            opts.lid[dim].as_str()
        } else {
            "0"
        }
    } else {
        if dim < opts.gid.len() {
            opts.gid[dim].as_str()
        } else {
            "0"
        }
    }
}

/// Names the variable that holds a work-group or work-item id.
fn index_string(local: bool, dim: usize) -> (name: String)
    ensures
        name@ == index_name(local, dim),
{
    let digits = decimal_string(dim as u64);
    if local {
        String::from_str("lidx").concat(digits.as_str())
    } else {
        String::from_str("gidx").concat(digits.as_str())
    }
}

/// Whether a micro-op declares an argument of the kernel.
fn declares_param(uop: &UOp) -> (declares: bool)
    ensures
        declares == is_param(*uop),
{
    match uop {
        UOp::DefineGlobal { .. } => true,
        UOp::DefineArg { .. } => true,
        _ => false,
    }
}

/// Writes the declaration of one argument of the kernel.
fn param_string(opts: &LanguageOpts, uop: &UOp) -> (text: String)
    ensures
        text@ == param_text(opts@, *uop),
{
    match uop {
        UOp::DefineGlobal { buffer, dtype } => {
            let digits = decimal_string(*buffer as u64);
            String::from_str(opts.buffer_prefix.as_str()).concat(scalar_str(*dtype)).concat(
                "* data",
            ).concat(digits.as_str())
        },
        UOp::DefineArg { index } => {
            let digits = decimal_string(*index as u64);
            String::from_str(opts.arg_int_prefix.as_str()).concat(" arg").concat(digits.as_str())
        },
        _ => String::new(),
    }
}

/// Writes the argument list of the kernel.
fn params_string(opts: &LanguageOpts, uops: &Vec<UOp>) -> (text: String)
    ensures
        text@ == params_text(opts@, uops@),
{
    let mut text = String::new();
    let mut seen = false;
    let mut i: usize = 0;
    while i < uops.len()
        invariant
            i <= uops.len(),
            text@ == params_text(opts@, uops@.take(i as int)),
            seen == any_param(uops@.take(i as int)),
        decreases uops.len() - i,
    {
        proof {
            assert(uops@.take(i + 1).drop_last() =~= uops@.take(i as int));
            assert(uops@.take(i + 1).last() == uops@[i as int]);
        }
        if declares_param(&uops[i]) {
            if seen {
                text.append(", ");
            } else {
                assert(text@ + Seq::<char>::empty() =~= text@);
            }
            let param = param_string(opts, &uops[i]);
            text.append(param.as_str());
            seen = true;
        }
        i += 1;
    }
    assert(uops@.take(uops@.len() as int) =~= uops@);
    text
}

/// Writes the statement of one micro-op.
fn statement_string<R: Renderer>(renderer: &R, kind: DtypeKind, position: usize, uop: &UOp) -> (text:
    String)
    ensures
        text@ == statement(renderer, kind, position as nat, *uop),
{
    let opts = renderer.lang_opts();
    let name = value_name(position);
    let declare = String::from_str(scalar_str(kind)).concat(" ").concat(name.as_str()).concat(
        " = ",
    );
    match uop {
        UOp::DefineGlobal { .. } => String::new(),
        UOp::DefineArg { .. } => String::new(),
        UOp::Special { local, dim } => {
            let index = index_string(*local, *dim);
            String::from_str("int ").concat(index.as_str()).concat(" = ").concat(
                accessor_str(opts, *local, *dim),
            ).concat(";")
        },
        UOp::DefineLocal { size } => {
            let digits = decimal_string(*size as u64);
            String::from_str(opts.smem_align.as_str()).concat(opts.smem_prefix.as_str()).concat(
                scalar_str(kind),
            ).concat(" temp[").concat(digits.as_str()).concat("];")
        },
        UOp::Load { buffer } => {
            let digits = decimal_string(*buffer as u64);
            declare.concat("data").concat(digits.as_str()).concat("[gidx0];")
        },
        UOp::Arg { index } => {
            let digits = decimal_string(*index as u64);
            declare.concat("arg").concat(digits.as_str()).concat(";")
        },
        UOp::Const { value } => {
            let digits = signed_decimal_string(*value);
            declare.concat(digits.as_str()).concat(";")
        },
        UOp::Unary { op, src } => {
            let a = value_name(*src);
            let text = unary_string(*op, a.as_str());
            declare.concat(text.as_str()).concat(";")
        },
        UOp::Binary { op, lhs, rhs } => {
            let a = value_name(*lhs);
            let b = value_name(*rhs);
            let text = binary_string(*op, a.as_str(), b.as_str());
            declare.concat(text.as_str()).concat(";")
        },
        UOp::MulAcc { a, b, c } => {
            let x = value_name(*a);
            let y = value_name(*b);
            let z = value_name(*c);
            let text = renderer.mulacc(x.as_str(), y.as_str(), z.as_str());
            declare.concat(text.as_str()).concat(";")
        },
        UOp::StoreLocal { src } => {
            let a = value_name(*src);
            String::from_str("temp[lidx0] = ").concat(a.as_str()).concat(";")
        },
        UOp::Barrier => String::from_str(opts.barrier.as_str()),
        UOp::ReduceLocal { op, size } => {
            let digits = decimal_string(*size as u64);
            let fold = binary_string(folding_op(*op), name.as_str(), "temp[i]");
            declare.concat("temp[0]; for (int i = 1; i < ").concat(digits.as_str()).concat(
                "; i++) { ",
            ).concat(name.as_str()).concat(" = ").concat(fold.as_str()).concat("; }")
        },
        UOp::Store { buffer, src } => {
            let digits = decimal_string(*buffer as u64);
            let a = value_name(*src);
            String::from_str("data").concat(digits.as_str()).concat("[gidx0] = ").concat(
                a.as_str(),
            ).concat(";")
        },
    }
}

/// Writes what stands before the kernel.
fn preamble_string(opts: &LanguageOpts, kind: DtypeKind) -> (text: String)
    ensures
        text@ == preamble(opts@, kind),
{
    match (&opts.half_prekernel, kind) {
        (Some(line), DtypeKind::Half) => String::from_str(line.as_str()).concat("\n"),
        _ => String::new(),
    }
}

/// Renders the kernel `name` made of `uops` as source text in the dialect
/// of `renderer`.
///
/// The text opens with the line that enables half precision, where it is
/// needed, and the kernel's declaration with its argument list; then comes
/// one statement for each micro-op, in order; a closing brace ends it.
pub fn uops_to_cstyle<R: Renderer>(renderer: &R, name: &str, uops: &Vec<UOp>) -> (source: String)
    ensures
        source@ == cstyle_source(renderer, name@, uops@),
{
    let opts = renderer.lang_opts();
    let kind = find_kind(uops);
    let params = params_string(opts, uops);
    let mut source = preamble_string(opts, kind).concat(opts.kernel_prefix.as_str()).concat(
        "void ",
    ).concat(name).concat("(").concat(params.as_str()).concat(") {\n");
    let ghost head = source@;
    let mut i: usize = 0;
    assert(source@ =~= head + body_text(renderer, kind, uops@, 0));
    while i < uops.len()
        invariant
            i <= uops.len(),
            source@ == head + body_text(renderer, kind, uops@, i as nat),
        decreases uops.len() - i,
    {
        if !declares_param(&uops[i]) {
            let ghost before = source@;
            let line = statement_string(renderer, kind, i, &uops[i]);
            source.append("  ");
            source.append(line.as_str());
            source.append("\n");
            assert(source@ =~= head + (body_text(renderer, kind, uops@, i as nat) + "  "@
                + line@ + "\n"@));
        }
        i += 1;
    }
    source.append("}");
    source
}

} // verus!
