//! The configuration, its feature combinations, and how one combination is
//! read.

use vstd::prelude::*;
use crate::error::{ConfigError, ErrorKind, OptionName};
use crate::namespace::{
    get_namespace_ids, indices_of, lemma_indices_length, NamespaceEntry, NamespaceMap,
    NamespaceTransforms,
};
use crate::options::{CmdlineOptions, CmdlineOptionsView, ComboArg, ComboArgView};
use crate::scalar::{Scalar, HALF_BITS, ONE_BITS, ZERO_BITS};
use crate::text::{
    bounded_decimal, chars_of, delimited_once, find_delimiter, head, lemma_split_point,
    parse_unsigned, slice_of, tail, Delimited,
};

verus! {

/// The largest factorization rank that the engine supports.
pub const FFM_MAX_K: u32 = 128;

/// The delimiter between the namespace letters of a combination and its weight.
pub const WEIGHT_DELIMITER: char = ':';

/// One interaction or keep term: the feature indices of its namespaces, in the
/// order in which the letters were written, and its weight. One that was read
/// from a combination has one index at least.
#[derive(Clone, Debug, PartialEq)]
pub struct FeatureComboDesc {
    pub feature_indices: Vec<u32>,
    pub weight: Scalar,
}

pub struct FeatureComboDescView {
    pub feature_indices: Seq<u32>,
    pub weight: Scalar,
}

impl View for FeatureComboDesc {
    type V = FeatureComboDescView;

    open spec fn view(&self) -> FeatureComboDescView {
        FeatureComboDescView { feature_indices: self.feature_indices@, weight: self.weight }
    }
}

/// The gradient-update strategy.
#[derive(Clone, Copy, Debug, PartialEq, Eq, Structural)]
pub enum Optimizer {
    SGD,
    Adagrad,
}

impl Optimizer {
    /// The strategy of a configuration that is made empty. It is not the one
    /// that a stored record without a strategy stands for, and is not meant to be.
    pub fn construction_default() -> (r: Optimizer)
        ensures
            r == Optimizer::SGD,
    {
        Optimizer::SGD
    }

    /// The strategy that a stored record stands for where it names none.
    pub fn deserialize_missing_default() -> (r: Optimizer)
        ensures
            r == Optimizer::Adagrad,
    {
        Optimizer::Adagrad
    }
}

/// The letters of a combination: all of its text where it holds no `:`, what
/// stands before the `:` where it holds one.
pub open spec fn combo_letters(text: Seq<char>) -> Seq<char> {
    if text.contains(WEIGHT_DELIMITER) {
        head(text, WEIGHT_DELIMITER)
    } else {
        text
    }
}

/// What a combination stands for: its letters resolved in their order, with the
/// weight written behind the `:`, or with weight one where there is no `:`.
///
/// More than one `:` is an error whatever else the text holds. With one `:`, a
/// weight that is no number is an error before any letter is looked at. A
/// combination without a letter is an error next: what comes out has one index
/// at least.
pub open spec fn combo_of(
    transforms: Seq<NamespaceEntry>,
    vw: Seq<NamespaceEntry>,
    arg: ComboArgView,
) -> Result<FeatureComboDescView, ErrorKind> {
    let once = delimited_once(arg.text, WEIGHT_DELIMITER);
    let letters = combo_letters(arg.text);
    if arg.text.contains(WEIGHT_DELIMITER) && !once {
        Err(ErrorKind::MultipleWeightDelimiters)
    } else if once && arg.weight.is_none() {
        Err(ErrorKind::InvalidNumber)
    } else if letters.len() == 0 {
        Err(ErrorKind::NoNamespaces)
    } else {
        match indices_of(transforms, vw, letters) {
            Ok(feature_indices) => Ok(
                FeatureComboDescView {
                    feature_indices,
                    weight: if once {
                        arg.weight.unwrap()
                    } else {
                        Scalar { bits: ONE_BITS }
                    },
                },
            ),
            Err(kind) => Err(kind),
        }
    }
}

/// The configuration of the learner: its hyperparameters, its feature
/// combinations and field groups, and the namespaces that transforms define.
#[derive(Clone, Debug, PartialEq)]
pub struct ModelInstance {
    pub learning_rate: Scalar,
    pub minimum_learning_rate: Scalar,
    pub power_t: Scalar,
    pub bit_precision: u8,
    /// Carried in stored records; nothing reads it.
    pub hash_mask: u32,
    pub add_constant_feature: bool,
    pub feature_combo_descs: Vec<FeatureComboDesc>,
    pub ffm_fields: Vec<Vec<u32>>,
    pub ffm_k: u32,
    pub ffm_bit_precision: u32,
    /// Carried in stored records; nothing reads it.
    pub ffm_separate_vectors: bool,
    pub fastmath: bool,
    pub ffm_k_threshold: Scalar,
    pub ffm_init_center: Scalar,
    pub ffm_init_width: Scalar,
    /// From 0.0 to 1.0, as a share of `ffm_init_width`.
    pub ffm_init_zero_band: Scalar,
    pub ffm_init_acc_gradient: Scalar,
    pub init_acc_gradient: Scalar,
    pub ffm_learning_rate: Scalar,
    pub ffm_power_t: Scalar,
    pub optimizer: Optimizer,
    pub transform_namespaces: NamespaceTransforms,
}

pub struct ModelInstanceView {
    pub learning_rate: Scalar,
    pub minimum_learning_rate: Scalar,
    pub power_t: Scalar,
    pub bit_precision: u8,
    pub hash_mask: u32,
    pub add_constant_feature: bool,
    pub feature_combo_descs: Seq<FeatureComboDescView>,
    pub ffm_fields: Seq<Seq<u32>>,
    pub ffm_k: u32,
    pub ffm_bit_precision: u32,
    pub ffm_separate_vectors: bool,
    pub fastmath: bool,
    pub ffm_k_threshold: Scalar,
    pub ffm_init_center: Scalar,
    pub ffm_init_width: Scalar,
    pub ffm_init_zero_band: Scalar,
    pub ffm_init_acc_gradient: Scalar,
    pub init_acc_gradient: Scalar,
    pub ffm_learning_rate: Scalar,
    pub ffm_power_t: Scalar,
    pub optimizer: Optimizer,
    pub transform_namespaces: Seq<NamespaceEntry>,
}

/// The view of each combination.
pub open spec fn desc_views(descs: Seq<FeatureComboDesc>) -> Seq<FeatureComboDescView> {
    Seq::new(descs.len(), |i: int| descs[i]@)
}

/// The indices of each field group.
pub open spec fn group_views(groups: Seq<Vec<u32>>) -> Seq<Seq<u32>> {
    Seq::new(groups.len(), |i: int| groups[i]@)
}

impl View for ModelInstance {
    type V = ModelInstanceView;

    open spec fn view(&self) -> ModelInstanceView {
        ModelInstanceView {
            learning_rate: self.learning_rate,
            minimum_learning_rate: self.minimum_learning_rate,
            power_t: self.power_t,
            bit_precision: self.bit_precision,
            hash_mask: self.hash_mask,
            add_constant_feature: self.add_constant_feature,
            feature_combo_descs: desc_views(self.feature_combo_descs@),
            ffm_fields: group_views(self.ffm_fields@),
            ffm_k: self.ffm_k,
            ffm_bit_precision: self.ffm_bit_precision,
            ffm_separate_vectors: self.ffm_separate_vectors,
            fastmath: self.fastmath,
            ffm_k_threshold: self.ffm_k_threshold,
            ffm_init_center: self.ffm_init_center,
            ffm_init_width: self.ffm_init_width,
            ffm_init_zero_band: self.ffm_init_zero_band,
            ffm_init_acc_gradient: self.ffm_init_acc_gradient,
            init_acc_gradient: self.init_acc_gradient,
            ffm_learning_rate: self.ffm_learning_rate,
            ffm_power_t: self.ffm_power_t,
            optimizer: self.optimizer,
            transform_namespaces: self.transform_namespaces@,
        }
    }
}

impl ModelInstanceView {
    /// The configuration that holds before any option is read.
    pub open spec fn empty() -> ModelInstanceView {
        ModelInstanceView {
            learning_rate: Scalar { bits: HALF_BITS },
            minimum_learning_rate: Scalar { bits: ZERO_BITS },
            power_t: Scalar { bits: HALF_BITS },
            bit_precision: 18,
            hash_mask: 0,
            add_constant_feature: true,
            feature_combo_descs: Seq::empty(),
            ffm_fields: Seq::empty(),
            ffm_k: 0,
            ffm_bit_precision: 18,
            ffm_separate_vectors: false,
            fastmath: true,
            ffm_k_threshold: Scalar { bits: ZERO_BITS },
            ffm_init_center: Scalar { bits: ZERO_BITS },
            ffm_init_width: Scalar { bits: ZERO_BITS },
            ffm_init_zero_band: Scalar { bits: ZERO_BITS },
            ffm_init_acc_gradient: Scalar { bits: ZERO_BITS },
            init_acc_gradient: Scalar { bits: ONE_BITS },
            ffm_learning_rate: Scalar { bits: HALF_BITS },
            ffm_power_t: Scalar { bits: HALF_BITS },
            optimizer: Optimizer::SGD,
            transform_namespaces: Seq::empty(),
        }
    }

    /// What every configuration that was built keeps to: the rank is within
    /// the engine's limit, both bit precisions are positive, and every
    /// combination has one index at least.
    pub open spec fn wf(self) -> bool {
        &&& self.ffm_k <= FFM_MAX_K
        &&& self.bit_precision > 0
        &&& self.ffm_bit_precision > 0
        &&& forall|i: int|
            0 <= i < self.feature_combo_descs.len() ==> (
            #[trigger] self.feature_combo_descs[i]).feature_indices.len() > 0
    }
}

/// What a build came to, in mathematical terms.
pub open spec fn outcome(r: Result<ModelInstance, ConfigError>) -> Result<
    ModelInstanceView,
    ConfigError,
> {
    match r {
        Ok(mi) => Ok(mi@),
        Err(error) => Err(error),
    }
}

/// The value that a stored record stands for where it names no rank or bit precision.
pub fn default_u32_zero() -> (r: u32)
    ensures
        r == 0,
{
    0
}

/// The value that a stored record stands for where it names no real-valued field.
pub fn default_f32_zero() -> (r: Scalar)
    ensures
        r == (Scalar { bits: ZERO_BITS }),
{
    Scalar { bits: ZERO_BITS }
}

/// The value that a stored record stands for where it names no switch.
pub fn default_bool_false() -> (r: bool)
    ensures
        !r,
{
    false
}

/// The strategy that a stored record stands for where it names none. A
/// configuration made by `new_empty` starts with `SGD` instead.
pub fn default_optimizer_adagrad() -> (r: Optimizer)
    ensures
        r == Optimizer::Adagrad,
{
    Optimizer::deserialize_missing_default()
}

/// What the two options on raw numeric namespaces come to: the namespaces as
/// written, the empty text where they are not given, and the number of leading
/// characters to skip, 0 where that option is not given. Each option is read
/// on its own: a prefix that writes no unsigned number of 32 bits is an error
/// whether or not namespaces are given. The text of the namespaces is not
/// looked into.
pub open spec fn float_namespaces_of(cl: CmdlineOptionsView) -> Result<
    (Seq<char>, u32),
    ConfigError,
> {
    let namespaces = match cl.float_namespaces {
        Some(namespaces) => namespaces,
        None => Seq::empty(),
    };
    match cl.float_namespaces_skip_prefix {
        None => Ok((namespaces, 0)),
        Some(text) => match bounded_decimal(text, u32::MAX as nat) {
            Some(skip) => Ok((namespaces, skip as u32)),
            None => Err(
                ConfigError::of(OptionName::FloatNamespacesSkipPrefix, ErrorKind::InvalidNumber),
            ),
        },
    }
}

/// Reads which namespaces hold raw numbers, and how long a prefix to skip in them.
pub fn get_float_namespaces(cl: &CmdlineOptions) -> (r: Result<(String, u32), ConfigError>)
    ensures
        match r {
            Ok((namespaces, skip)) => float_namespaces_of(cl@) == Ok::<
                (Seq<char>, u32),
                ConfigError,
            >((namespaces@, skip)),
            Err(error) => float_namespaces_of(cl@) == Err::<(Seq<char>, u32), ConfigError>(error),
        },
{
    let skip: u32 = match &cl.float_namespaces_skip_prefix {
        None => 0,
        Some(text) => {
            let chars = chars_of(text.as_str());
            match parse_unsigned(&chars, u32::MAX) {
                Some(skip) => skip,
                None => {
                    return Err(
                        ConfigError::new(
                            OptionName::FloatNamespacesSkipPrefix,
                            ErrorKind::InvalidNumber,
                        ),
                    );
                },
            }
        },
    };
    match &cl.float_namespaces {
        None => Ok((String::new(), skip)),
        Some(namespaces) => Ok((namespaces.clone(), skip)),
    }
}

/// The text behind the `:` of a combination that holds one `:`: what is to be
/// read as its weight. A combination without `:`, or with more than one, has none.
pub fn weight_text(s: &str) -> (r: Option<String>)
    ensures
        match r {
            Some(text) => delimited_once(s@, WEIGHT_DELIMITER) && text@ == tail(
                s@,
                WEIGHT_DELIMITER,
            ),
            None => !delimited_once(s@, WEIGHT_DELIMITER),
        },
{
    let chars = chars_of(s);
    match find_delimiter(&chars, WEIGHT_DELIMITER) {
        Delimited::Once(at) => {
            proof {
                lemma_split_point(chars@, WEIGHT_DELIMITER, at as int);
            }
            assert(at < chars.len());
            Some(s.substring_char(at + 1, chars.len()).to_owned())
        },
        _ => None,
    }
}

impl ModelInstance {
    /// The configuration that holds before any option is read. It never fails.
    pub fn new_empty() -> (r: Result<ModelInstance, ConfigError>)
        ensures
            outcome(r) == Ok::<ModelInstanceView, ConfigError>(ModelInstanceView::empty()),
            ModelInstanceView::empty().wf(),
    {
        let mi = ModelInstance {
            learning_rate: Scalar { bits: HALF_BITS },
            ffm_learning_rate: Scalar { bits: HALF_BITS },
            minimum_learning_rate: Scalar { bits: ZERO_BITS },
            bit_precision: 18,
            hash_mask: 0,
            power_t: Scalar { bits: HALF_BITS },
            ffm_power_t: Scalar { bits: HALF_BITS },
            add_constant_feature: true,
            feature_combo_descs: Vec::new(),
            ffm_fields: Vec::new(),
            ffm_k: 0,
            ffm_bit_precision: 18,
            ffm_separate_vectors: false,
            fastmath: true,
            ffm_k_threshold: Scalar { bits: ZERO_BITS },
            ffm_init_center: Scalar { bits: ZERO_BITS },
            ffm_init_width: Scalar { bits: ZERO_BITS },
            ffm_init_zero_band: Scalar { bits: ZERO_BITS },
            ffm_init_acc_gradient: Scalar { bits: ZERO_BITS },
            init_acc_gradient: Scalar { bits: ONE_BITS },
            optimizer: Optimizer::construction_default(),
            transform_namespaces: NamespaceTransforms::new(),
        };
        assert(mi@.feature_combo_descs =~= Seq::empty());
        assert(mi@.ffm_fields =~= Seq::empty());
        Ok(mi)
    }

    /// Reads one combination against the namespaces of the input and those that
    /// the transforms of this configuration define.
    pub fn create_feature_combo_desc(&self, vw: &NamespaceMap, s: &ComboArg) -> (r: Result<
        FeatureComboDesc,
        ErrorKind,
    >)
        ensures
            match r {
                Ok(desc) => combo_of(self@.transform_namespaces, vw@, s@) == Ok::<
                    FeatureComboDescView,
                    ErrorKind,
                >(desc@),
                Err(kind) => combo_of(self@.transform_namespaces, vw@, s@) == Err::<
                    FeatureComboDescView,
                    ErrorKind,
                >(kind),
            },
            r matches Ok(desc) ==> desc@.feature_indices.len() == combo_letters(s@.text).len()
                && desc@.feature_indices.len() > 0,
    {
        let chars = chars_of(s.text.as_str());
        let (letters, weight) = match find_delimiter(&chars, WEIGHT_DELIMITER) {
            Delimited::Never => (chars, Scalar { bits: ONE_BITS }),
            Delimited::Once(at) => {
                proof {
                    lemma_split_point(chars@, WEIGHT_DELIMITER, at as int);
                }
                match s.weight {
                    None => {
                        return Err(ErrorKind::InvalidNumber);
                    },
                    Some(weight) => (slice_of(&chars, 0, at), weight),
                }
            },
            Delimited::Repeatedly => {
                return Err(ErrorKind::MultipleWeightDelimiters);
            },
        };
        if letters.len() == 0 {
            return Err(ErrorKind::NoNamespaces);
        }
        proof {
            lemma_indices_length(self@.transform_namespaces, vw@, letters@);
        }
        match get_namespace_ids(&self.transform_namespaces, vw, &letters) {
            Ok(feature_indices) => Ok(FeatureComboDesc { feature_indices, weight }),
            Err(kind) => Err(kind),
        }
    }
}

} // verus!
