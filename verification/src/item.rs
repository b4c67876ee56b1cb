//! A function as the transformation sees it, and the log statements put into it.
//!
//! Of the function's signature the name, whether it suspends, the parameters' names and
//! the return type's path are kept. Its body is the source text of its statements, under
//! the layers that annotations have laid around it: a log statement put in front, or a
//! wrapper that runs what is inside as a closure and logs what comes back.

use vstd::prelude::*;
use vstd::string::StringExecFns;

verus! {

/// One argument of a log statement.
#[derive(Debug, PartialEq, Eq)]
pub enum LogArg {
    /// What the body returned or, where the outcomes are told apart, the success value.
    Value,
    /// The failure value.
    Failure,
    /// The time that the body took.
    Elapsed,
    /// A parameter of the function, by its name.
    Input(String),
}

/// The mathematical value of a [`LogArg`].
pub enum LogArgView {
    Value,
    Failure,
    Elapsed,
    Input(Seq<char>),
}

impl DeepView for LogArg {
    type V = LogArgView;

    open spec fn deep_view(&self) -> LogArgView {
        match self {
            LogArg::Value => LogArgView::Value,
            LogArg::Failure => LogArgView::Failure,
            LogArg::Elapsed => LogArgView::Elapsed,
            LogArg::Input(name) => LogArgView::Input(name@),
        }
    }
}

impl Clone for LogArg {
    fn clone(&self) -> (copy: LogArg)
        ensures
            copy.deep_view() == self.deep_view(),
    {
        match self {
            LogArg::Value => LogArg::Value,
            LogArg::Failure => LogArg::Failure,
            LogArg::Elapsed => LogArg::Elapsed,
            LogArg::Input(name) => LogArg::Input(name.clone()),
        }
    }
}

/// A call into the logging facade: a level, a format template, and the arguments that
/// fill the template's placeholders, in order.
#[derive(Debug, PartialEq, Eq)]
pub struct LogCall {
    /// The facade's name of the level, such as `Info`.
    pub level: String,
    /// The format template.
    pub fmt: String,
    pub args: Vec<LogArg>,
    /// Whether the arguments are handed over in their debug form, so that the bare
    /// placeholders of a default template show any value that has one. The arguments of
    /// a template that the annotation gives are handed over as they are.
    pub debug: bool,
}

/// The mathematical value of a [`LogCall`].
pub struct LogCallView {
    pub level: Seq<char>,
    pub fmt: Seq<char>,
    pub args: Seq<LogArgView>,
    pub debug: bool,
}

impl DeepView for LogCall {
    type V = LogCallView;

    open spec fn deep_view(&self) -> LogCallView {
        LogCallView {
            level: self.level@,
            fmt: self.fmt@,
            args: self.args.deep_view(),
            debug: self.debug,
        }
    }
}

fn clone_args(args: &Vec<LogArg>) -> (copy: Vec<LogArg>)
    ensures
        copy.deep_view() == args.deep_view(),
{
    let mut copy: Vec<LogArg> = Vec::new();
    let mut i: usize = 0;
    while i < args.len()
        invariant
            i <= args.len(),
            copy.deep_view() == args.deep_view().take(i as int),
        decreases args.len() - i,
    {
        let arg = args[i].clone();
        let ghost before = copy.deep_view();
        copy.push(arg);
        assert(arg.deep_view() == args[i as int].deep_view());
        assert(copy.deep_view() =~= before.push(arg.deep_view()));
        assert(copy.deep_view() =~= args.deep_view().take(i + 1));
        i += 1;
    }
    assert(args.deep_view().take(i as int) =~= args.deep_view());
    copy
}

impl Clone for LogCall {
    fn clone(&self) -> (copy: LogCall)
        ensures
            copy.deep_view() == self.deep_view(),
    {
        LogCall {
            level: self.level.clone(),
            fmt: self.fmt.clone(),
            args: clone_args(&self.args),
            debug: self.debug,
        }
    }
}

fn clone_expr(expr: &Option<LogCall>) -> (copy: Option<LogCall>)
    ensures
        copy.deep_view() == expr.deep_view(),
{
    match expr {
        Some(call) => Some(call.clone()),
        None => None,
    }
}

/// A wrapper around a body: the body runs as a closure, and what it returns is logged and
/// handed on unchanged.
#[derive(Debug, PartialEq, Eq)]
pub struct Wrapper {
    /// Whether the closure's result is awaited.
    pub suspending: bool,
    /// Whether the time that the body takes is measured.
    pub timed: bool,
    /// Whether a success and a failure are told apart.
    pub branching: bool,
    /// What is logged for a success or, without branching, for whatever is returned.
    pub ok_expr: Option<LogCall>,
    /// What is logged for a failure.
    pub err_expr: Option<LogCall>,
}

/// The mathematical value of a [`Wrapper`].
pub struct WrapperView {
    pub suspending: bool,
    pub timed: bool,
    pub branching: bool,
    pub ok_expr: Option<LogCallView>,
    pub err_expr: Option<LogCallView>,
}

impl DeepView for Wrapper {
    type V = WrapperView;

    open spec fn deep_view(&self) -> WrapperView {
        WrapperView {
            suspending: self.suspending,
            timed: self.timed,
            branching: self.branching,
            ok_expr: self.ok_expr.deep_view(),
            err_expr: self.err_expr.deep_view(),
        }
    }
}

impl Clone for Wrapper {
    fn clone(&self) -> (copy: Wrapper)
        ensures
            copy.deep_view() == self.deep_view(),
    {
        Wrapper {
            suspending: self.suspending,
            timed: self.timed,
            branching: self.branching,
            ok_expr: clone_expr(&self.ok_expr),
            err_expr: clone_expr(&self.err_expr),
        }
    }
}

/// What one annotation has laid around a body.
#[derive(Debug, PartialEq, Eq)]
pub enum Layer {
    /// A log statement in front of what is inside.
    Log(LogCall),
    /// A wrapper around what is inside.
    Wrap(Wrapper),
}

/// The mathematical value of a [`Layer`].
pub enum LayerView {
    Log(LogCallView),
    Wrap(WrapperView),
}

impl DeepView for Layer {
    type V = LayerView;

    open spec fn deep_view(&self) -> LayerView {
        match self {
            Layer::Log(call) => LayerView::Log(call.deep_view()),
            Layer::Wrap(wrapper) => LayerView::Wrap(wrapper.deep_view()),
        }
    }
}

impl Clone for Layer {
    fn clone(&self) -> (copy: Layer)
        ensures
            copy.deep_view() == self.deep_view(),
    {
        match self {
            Layer::Log(call) => Layer::Log(call.clone()),
            Layer::Wrap(wrapper) => Layer::Wrap(wrapper.clone()),
        }
    }
}

/// The body of a function: the source text of its statements, and the layers laid around
/// them, the innermost first.
#[derive(Debug, PartialEq, Eq)]
pub struct Block {
    pub source: String,
    pub layers: Vec<Layer>,
}

/// The mathematical value of a [`Block`].
pub struct BlockView {
    pub source: Seq<char>,
    pub layers: Seq<LayerView>,
}

impl DeepView for Block {
    type V = BlockView;

    open spec fn deep_view(&self) -> BlockView {
        BlockView { source: self.source@, layers: self.layers.deep_view() }
    }
}

impl BlockView {
    /// The block with one more layer around it.
    pub open spec fn under(self, layer: LayerView) -> BlockView {
        BlockView { source: self.source, layers: self.layers.push(layer) }
    }
}

impl Clone for Block {
    fn clone(&self) -> (copy: Block)
        ensures
            copy.deep_view() == self.deep_view(),
    {
        let mut layers: Vec<Layer> = Vec::new();
        let mut i: usize = 0;
        while i < self.layers.len()
            invariant
                i <= self.layers.len(),
                layers.deep_view() == self.layers.deep_view().take(i as int),
            decreases self.layers.len() - i,
        {
            let layer = self.layers[i].clone();
            let ghost before = layers.deep_view();
            layers.push(layer);
            assert(layers.deep_view() =~= before.push(layer.deep_view()));
            assert(layers.deep_view() =~= self.layers.deep_view().take(i + 1));
            i += 1;
        }
        assert(self.layers.deep_view().take(i as int) =~= self.layers.deep_view());
        Block { source: self.source.clone(), layers }
    }
}

impl Block {
    /// The block with one more layer around it.
    pub fn under(self, layer: Layer) -> (block: Block)
        ensures
            block.deep_view() == self.deep_view().under(layer.deep_view()),
    {
        let ghost pushed = self.layers.deep_view().push(layer.deep_view());
        let mut layers = self.layers;
        layers.push(layer);
        assert(layers.deep_view() =~= pushed);
        Block { source: self.source, layers }
    }
}

/// The path of a type, such as `std::result::Result<T, E>`: the identifiers of its
/// segments, without their generic arguments.
#[derive(Debug, PartialEq, Eq)]
pub struct TypePath {
    pub segments: Vec<String>,
}

/// The mathematical value of a [`TypePath`].
pub struct TypePathView {
    pub segments: Seq<Seq<char>>,
}

impl DeepView for TypePath {
    type V = TypePathView;

    open spec fn deep_view(&self) -> TypePathView {
        TypePathView { segments: self.segments.deep_view() }
    }
}

/// The declared return type of a function.
#[derive(Debug, PartialEq, Eq)]
pub enum ReturnType {
    /// None is declared.
    Default,
    /// A type that is written as a path.
    Path(TypePath),
    /// A type of any other form: a reference, a tuple, a slice and so on.
    Other,
}

/// The mathematical value of a [`ReturnType`].
pub enum ReturnTypeView {
    Default,
    Path(TypePathView),
    Other,
}

impl DeepView for ReturnType {
    type V = ReturnTypeView;

    open spec fn deep_view(&self) -> ReturnTypeView {
        match self {
            ReturnType::Default => ReturnTypeView::Default,
            ReturnType::Path(path) => ReturnTypeView::Path(path.deep_view()),
            ReturnType::Other => ReturnTypeView::Other,
        }
    }
}

/// A parameter of a function.
#[derive(Debug, PartialEq, Eq)]
pub enum FnArg {
    /// The receiver, `self` in any form.
    Receiver,
    /// A parameter bound to a plain name.
    Ident(String),
    /// A parameter bound by any other pattern.
    Other,
}

/// The mathematical value of a [`FnArg`].
pub enum FnArgView {
    Receiver,
    Ident(Seq<char>),
    Other,
}

impl DeepView for FnArg {
    type V = FnArgView;

    open spec fn deep_view(&self) -> FnArgView {
        match self {
            FnArg::Receiver => FnArgView::Receiver,
            FnArg::Ident(name) => FnArgView::Ident(name@),
            FnArg::Other => FnArgView::Other,
        }
    }
}

/// What the transformation reads of a function's signature.
#[derive(Debug, PartialEq, Eq)]
pub struct Signature {
    /// The function's name.
    pub ident: String,
    /// Whether the function is declared `async`.
    pub asyncness: bool,
    pub inputs: Vec<FnArg>,
    pub output: ReturnType,
}

/// The mathematical value of a [`Signature`].
pub struct SignatureView {
    pub ident: Seq<char>,
    pub asyncness: bool,
    pub inputs: Seq<FnArgView>,
    pub output: ReturnTypeView,
}

impl DeepView for Signature {
    type V = SignatureView;

    open spec fn deep_view(&self) -> SignatureView {
        SignatureView {
            ident: self.ident@,
            asyncness: self.asyncness,
            inputs: self.inputs.deep_view(),
            output: self.output.deep_view(),
        }
    }
}

/// A function: its signature and its body.
#[derive(Debug, PartialEq, Eq)]
pub struct ItemFn {
    pub sig: Signature,
    pub block: Block,
}

/// The mathematical value of an [`ItemFn`].
pub struct ItemFnView {
    pub sig: SignatureView,
    pub block: BlockView,
}

impl DeepView for ItemFn {
    type V = ItemFnView;

    open spec fn deep_view(&self) -> ItemFnView {
        ItemFnView { sig: self.sig.deep_view(), block: self.block.deep_view() }
    }
}

/// A body made into a value that is invoked without arguments and captures by value what
/// it names.
#[derive(Debug, PartialEq, Eq)]
pub enum WrappedBody {
    /// A closure; invoking it runs the body and gives its value.
    Immediate(Block),
    /// An `async` block; its value is there once it has been awaited.
    Suspending(Block),
}

/// The mathematical value of a [`WrappedBody`].
pub enum WrappedBodyView {
    Immediate(BlockView),
    Suspending(BlockView),
}

impl DeepView for WrappedBody {
    type V = WrappedBodyView;

    open spec fn deep_view(&self) -> WrappedBodyView {
        match self {
            WrappedBody::Immediate(body) => WrappedBodyView::Immediate(body.deep_view()),
            WrappedBody::Suspending(body) => WrappedBodyView::Suspending(body.deep_view()),
        }
    }
}

impl WrappedBodyView {
    /// The body that is wrapped.
    pub open spec fn body(self) -> BlockView {
        match self {
            WrappedBodyView::Immediate(body) => body,
            WrappedBodyView::Suspending(body) => body,
        }
    }

    /// Whether invoking it has to be awaited.
    pub open spec fn suspending(self) -> bool {
        self is Suspending
    }
}

/// How a function's declared return type is classed.
#[derive(Clone, Copy, Debug, PartialEq, Eq, Structural)]
pub enum ReturnShape {
    /// The value is logged as it is.
    Plain,
    /// The value is a success or a failure, and each is logged in its own way.
    OutcomeCarrying,
}

impl TypePathView {
    /// Whether the last segment of the path is named `Result`. Neither the segments
    /// before it nor any generic arguments count.
    pub open spec fn is_result(self) -> bool {
        self.segments.len() > 0 && self.segments.last() == "Result"@
    }
}

impl ReturnTypeView {
    /// The class of the return type: outcome-carrying if it is a path that ends in
    /// `Result`, plain in every other case.
    pub open spec fn shape(self) -> ReturnShape {
        match self {
            ReturnTypeView::Path(path) => if path.is_result() {
                ReturnShape::OutcomeCarrying
            } else {
                ReturnShape::Plain
            },
            _ => ReturnShape::Plain,
        }
    }
}

/// Whether a type is some form of `Result`: whether the last segment of its path is named
/// `Result`, through whatever modules it is reached.
pub fn is_result_type(ty: &TypePath) -> (is_result: bool)
    ensures
        is_result == ty.deep_view().is_result(),
{
    let len = ty.segments.len();
    if len == 0 {
        false
    } else {
        ty.segments[len - 1] == String::from_str("Result")
    }
}

/// Whether the function's declared return type is outcome-carrying.
pub fn check_if_return_result(f: &ItemFn) -> (is_result: bool)
    ensures
        is_result == (f.deep_view().sig.output.shape() == ReturnShape::OutcomeCarrying),
{
    match &f.sig.output {
        ReturnType::Path(path) => is_result_type(path),
        _ => false,
    }
}

/// Gives `new` the signature of `original` and lets it keep its own body.
pub fn replace_function_headers(original: ItemFn, new: &mut ItemFn)
    ensures
        final(new).deep_view() == (ItemFnView {
            sig: original.deep_view().sig,
            block: old(new).deep_view().block,
        }),
{
    new.sig = original.sig;
}

/// The class of a return type does not depend on the modules through which the type is
/// reached: segments put in front of a path leave its class as it is.
pub proof fn lemma_shape_ignores_prefix(prefix: Seq<Seq<char>>, path: TypePathView)
    requires
        path.segments.len() > 0,
    ensures
        ReturnTypeView::Path(TypePathView { segments: prefix + path.segments }).shape()
            == ReturnTypeView::Path(path).shape(),
{
}

/// A path whose last segment is `Result` is outcome-carrying, whatever stands before it;
/// a return type that is no path, or none at all, is plain.
pub proof fn lemma_result_carries_outcome(prefix: Seq<Seq<char>>)
    ensures
        ReturnTypeView::Path(TypePathView { segments: prefix.push("Result"@) }).shape()
            == ReturnShape::OutcomeCarrying,
        ReturnTypeView::Default.shape() == ReturnShape::Plain,
        ReturnTypeView::Other.shape() == ReturnShape::Plain,
{
}

} // verus!
