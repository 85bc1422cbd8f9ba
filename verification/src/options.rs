//! The options of a command line, as the library takes them.

use vstd::prelude::*;
use crate::namespace::NamespaceEntry;
use crate::scalar::Scalar;

verus! {

/// The value of a real-valued option, as the caller read it: the number that the
/// text writes, or the fact that it writes none.
#[derive(Clone, Copy, Debug, PartialEq, Eq, Structural)]
pub enum ScalarArg {
    Number(Scalar),
    Malformed,
}

/// One feature combination as given: its text, namespace letters with an
/// optional `:` and weight behind them, and the number that the caller read in
/// what follows the `:`. `weight` is `None` where that text writes no number; it
/// is not looked at where the text holds no single `:`.
#[derive(Clone, Debug, PartialEq, Eq)]
pub struct ComboArg {
    pub text: String,
    pub weight: Option<Scalar>,
}

pub struct ComboArgView {
    pub text: Seq<char>,
    pub weight: Option<Scalar>,
}

impl View for ComboArg {
    type V = ComboArgView;

    open spec fn view(&self) -> ComboArgView {
        ComboArgView { text: self.text@, weight: self.weight }
    }
}

/// One transform definition, as the transform registry read it: the namespace
/// that it defines, or the fact that the registry did not accept it.
#[derive(Clone, Copy, Debug, PartialEq, Eq, Structural)]
pub enum TransformArg {
    Defines(NamespaceEntry),
    Rejected,
}

/// The options of one command line. An option that was not given is `None`,
/// `false` or empty; the values of a repeatable option stand in the order given.
#[derive(Clone, Debug, PartialEq, Eq)]
pub struct CmdlineOptions {
    pub vwcompat: bool,
    pub keep: Vec<ComboArg>,
    pub hash: Option<String>,
    pub sgd: bool,
    pub adaptive: bool,
    pub transform_namespace: Vec<TransformArg>,
    pub interactions: Vec<ComboArg>,
    pub lrqfa: Option<String>,
    pub ffm_k: Option<String>,
    pub ffm_init_center: Option<ScalarArg>,
    pub ffm_init_width: Option<ScalarArg>,
    pub init_acc_gradient: Option<ScalarArg>,
    pub ffm_init_acc_gradient: Option<ScalarArg>,
    pub ffm_field: Vec<String>,
    pub ffm_bit_precision: Option<String>,
    pub bit_precision: Option<String>,
    pub learning_rate: Option<ScalarArg>,
    pub ffm_learning_rate: Option<ScalarArg>,
    pub minimum_learning_rate: Option<ScalarArg>,
    pub power_t: Option<ScalarArg>,
    pub ffm_power_t: Option<ScalarArg>,
    pub link: Option<String>,
    pub loss_function: Option<String>,
    pub l2: Option<ScalarArg>,
    pub noconstant: bool,
    pub float_namespaces: Option<String>,
    pub float_namespaces_skip_prefix: Option<String>,
}

pub struct CmdlineOptionsView {
    pub vwcompat: bool,
    pub keep: Seq<ComboArgView>,
    pub hash: Option<Seq<char>>,
    pub sgd: bool,
    pub adaptive: bool,
    pub transform_namespace: Seq<TransformArg>,
    pub interactions: Seq<ComboArgView>,
    pub lrqfa: Option<Seq<char>>,
    pub ffm_k: Option<Seq<char>>,
    pub ffm_init_center: Option<ScalarArg>,
    pub ffm_init_width: Option<ScalarArg>,
    pub init_acc_gradient: Option<ScalarArg>,
    pub ffm_init_acc_gradient: Option<ScalarArg>,
    pub ffm_field: Seq<Seq<char>>,
    pub ffm_bit_precision: Option<Seq<char>>,
    pub bit_precision: Option<Seq<char>>,
    pub learning_rate: Option<ScalarArg>,
    pub ffm_learning_rate: Option<ScalarArg>,
    pub minimum_learning_rate: Option<ScalarArg>,
    pub power_t: Option<ScalarArg>,
    pub ffm_power_t: Option<ScalarArg>,
    pub link: Option<Seq<char>>,
    pub loss_function: Option<Seq<char>>,
    pub l2: Option<ScalarArg>,
    pub noconstant: bool,
    pub float_namespaces: Option<Seq<char>>,
    pub float_namespaces_skip_prefix: Option<Seq<char>>,
}

/// The characters of an optional text.
pub open spec fn text_view(text: Option<String>) -> Option<Seq<char>> {
    match text {
        Some(s) => Some(s@),
        None => None,
    }
}

/// The characters of each text.
pub open spec fn text_views(texts: Seq<String>) -> Seq<Seq<char>> {
    Seq::new(texts.len(), |i: int| texts[i]@)
}

/// The view of each combination.
pub open spec fn combo_views(args: Seq<ComboArg>) -> Seq<ComboArgView> {
    Seq::new(args.len(), |i: int| args[i]@)
}

impl View for CmdlineOptions {
    type V = CmdlineOptionsView;

    open spec fn view(&self) -> CmdlineOptionsView {
        CmdlineOptionsView {
            vwcompat: self.vwcompat,
            keep: combo_views(self.keep@),
            hash: text_view(self.hash),
            sgd: self.sgd,
            adaptive: self.adaptive,
            transform_namespace: self.transform_namespace@,
            interactions: combo_views(self.interactions@),
            lrqfa: text_view(self.lrqfa),
            ffm_k: text_view(self.ffm_k),
            ffm_init_center: self.ffm_init_center,
            ffm_init_width: self.ffm_init_width,
            init_acc_gradient: self.init_acc_gradient,
            ffm_init_acc_gradient: self.ffm_init_acc_gradient,
            ffm_field: text_views(self.ffm_field@),
            ffm_bit_precision: text_view(self.ffm_bit_precision),
            bit_precision: text_view(self.bit_precision),
            learning_rate: self.learning_rate,
            ffm_learning_rate: self.ffm_learning_rate,
            minimum_learning_rate: self.minimum_learning_rate,
            power_t: self.power_t,
            ffm_power_t: self.ffm_power_t,
            link: text_view(self.link),
            loss_function: text_view(self.loss_function),
            l2: self.l2,
            noconstant: self.noconstant,
            float_namespaces: text_view(self.float_namespaces),
            float_namespaces_skip_prefix: text_view(self.float_namespaces_skip_prefix),
        }
    }
}

impl CmdlineOptionsView {
    /// The command line on which no option is given.
    pub open spec fn empty() -> CmdlineOptionsView {
        CmdlineOptionsView {
            vwcompat: false,
            keep: Seq::empty(),
            hash: None,
            sgd: false,
            adaptive: false,
            transform_namespace: Seq::empty(),
            interactions: Seq::empty(),
            lrqfa: None,
            ffm_k: None,
            ffm_init_center: None,
            ffm_init_width: None,
            init_acc_gradient: None,
            ffm_init_acc_gradient: None,
            ffm_field: Seq::empty(),
            ffm_bit_precision: None,
            bit_precision: None,
            learning_rate: None,
            ffm_learning_rate: None,
            minimum_learning_rate: None,
            power_t: None,
            ffm_power_t: None,
            link: None,
            loss_function: None,
            l2: None,
            noconstant: false,
            float_namespaces: None,
            float_namespaces_skip_prefix: None,
        }
    }
}

impl CmdlineOptions {
    /// The command line on which no option is given.
    pub fn new() -> (r: CmdlineOptions)
        ensures
            r@ == CmdlineOptionsView::empty(),
    {
        let r = CmdlineOptions {
            vwcompat: false,
            keep: Vec::new(),
            hash: None,
            sgd: false,
            adaptive: false,
            transform_namespace: Vec::new(),
            interactions: Vec::new(),
            lrqfa: None,
            ffm_k: None,
            ffm_init_center: None,
            ffm_init_width: None,
            init_acc_gradient: None,
            ffm_init_acc_gradient: None,
            ffm_field: Vec::new(),
            ffm_bit_precision: None,
            bit_precision: None,
            learning_rate: None,
            ffm_learning_rate: None,
            minimum_learning_rate: None,
            power_t: None,
            ffm_power_t: None,
            link: None,
            loss_function: None,
            l2: None,
            noconstant: false,
            float_namespaces: None,
            float_namespaces_skip_prefix: None,
        };
        assert(r@.keep =~= Seq::empty());
        assert(r@.interactions =~= Seq::empty());
        assert(r@.ffm_field =~= Seq::empty());
        r
    }
}

} // verus!
