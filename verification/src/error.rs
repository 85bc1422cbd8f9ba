//! The options by name, and what can be wrong with their values.

use vstd::prelude::*;

verus! {

/// The options that a configuration is built from.
#[derive(Clone, Copy, Debug, PartialEq, Eq, Structural)]
pub enum OptionName {
    Vwcompat,
    Keep,
    Hash,
    Sgd,
    Adaptive,
    TransformNamespace,
    Interactions,
    Lrqfa,
    FfmK,
    FfmInitCenter,
    FfmInitWidth,
    InitAccGradient,
    FfmInitAccGradient,
    FfmField,
    FfmBitPrecision,
    BitPrecision,
    LearningRate,
    FfmLearningRate,
    MinimumLearningRate,
    PowerT,
    FfmPowerT,
    Link,
    LossFunction,
    L2,
    Noconstant,
    FloatNamespaces,
    FloatNamespacesSkipPrefix,
}

impl OptionName {
    /// The option as it is written on the command line, without the dashes.
    pub open spec fn text(self) -> Seq<char> {
        match self {
            OptionName::Vwcompat => "vwcompat"@,
            OptionName::Keep => "keep"@,
            OptionName::Hash => "hash"@,
            OptionName::Sgd => "sgd"@,
            OptionName::Adaptive => "adaptive"@,
            OptionName::TransformNamespace => "transform_namespace"@,
            OptionName::Interactions => "interactions"@,
            OptionName::Lrqfa => "lrqfa"@,
            OptionName::FfmK => "ffm_k"@,
            OptionName::FfmInitCenter => "ffm_init_center"@,
            OptionName::FfmInitWidth => "ffm_init_width"@,
            OptionName::InitAccGradient => "init_acc_gradient"@,
            OptionName::FfmInitAccGradient => "ffm_init_acc_gradient"@,
            OptionName::FfmField => "ffm_field"@,
            OptionName::FfmBitPrecision => "ffm_bit_precision"@,
            OptionName::BitPrecision => "bit_precision"@,
            OptionName::LearningRate => "learning_rate"@,
            OptionName::FfmLearningRate => "ffm_learning_rate"@,
            OptionName::MinimumLearningRate => "minimum_learning_rate"@,
            OptionName::PowerT => "power_t"@,
            OptionName::FfmPowerT => "ffm_power_t"@,
            OptionName::Link => "link"@,
            OptionName::LossFunction => "loss_function"@,
            OptionName::L2 => "l2"@,
            OptionName::Noconstant => "noconstant"@,
            OptionName::FloatNamespaces => "float_namespaces"@,
            OptionName::FloatNamespacesSkipPrefix => "float_namespaces_skip_prefix"@,
        }
    }

    /// The option as it is written on the command line, without the dashes.
    pub fn as_str(self) -> (r: &'static str)
        ensures
            r@ == self.text(),
    {
        match self {
            OptionName::Vwcompat => "vwcompat",
            OptionName::Keep => "keep",
            OptionName::Hash => "hash",
            OptionName::Sgd => "sgd",
            OptionName::Adaptive => "adaptive",
            OptionName::TransformNamespace => "transform_namespace",
            OptionName::Interactions => "interactions",
            OptionName::Lrqfa => "lrqfa",
            OptionName::FfmK => "ffm_k",
            OptionName::FfmInitCenter => "ffm_init_center",
            OptionName::FfmInitWidth => "ffm_init_width",
            OptionName::InitAccGradient => "init_acc_gradient",
            OptionName::FfmInitAccGradient => "ffm_init_acc_gradient",
            OptionName::FfmField => "ffm_field",
            OptionName::FfmBitPrecision => "ffm_bit_precision",
            OptionName::BitPrecision => "bit_precision",
            OptionName::LearningRate => "learning_rate",
            OptionName::FfmLearningRate => "ffm_learning_rate",
            OptionName::MinimumLearningRate => "minimum_learning_rate",
            OptionName::PowerT => "power_t",
            OptionName::FfmPowerT => "ffm_power_t",
            OptionName::Link => "link",
            OptionName::LossFunction => "loss_function",
            OptionName::L2 => "l2",
            OptionName::Noconstant => "noconstant",
            OptionName::FloatNamespaces => "float_namespaces",
            OptionName::FloatNamespacesSkipPrefix => "float_namespaces_skip_prefix",
        }
    }
}

/// What is wrong with the value of an option.
#[derive(Clone, Copy, Debug, PartialEq, Eq, Structural)]
pub enum ErrorKind {
    /// A combination holds more than one `:`.
    MultipleWeightDelimiters,
    /// A combination holds no letter: it names no namespace.
    NoNamespaces,
    /// The shorthand is not of the form letters, one `-`, rank.
    MalformedShorthand,
    /// A letter names no namespace.
    UnknownNamespace { letter: char },
    /// The text writes no number of the kind that the option takes.
    InvalidNumber,
    /// The factorization rank is above the largest supported one.
    RankTooLarge { max: u32, given: u32 },
    /// The option is absent though compatibility mode needs it.
    RequiredByCompat,
    /// Compatibility mode hashes `all` and nothing else.
    HashNotAll,
    /// The option is present though compatibility mode has no place for it.
    ForbiddenByCompat,
    /// The option takes `logistic` and nothing else.
    NotLogistic,
    /// The option takes zero and nothing else.
    NotZero,
    /// The option takes a positive number, and zero was given.
    NotPositive,
    /// The transform registry did not accept the definition.
    TransformRejected,
}

/// A failed build: the option at fault, which of its values (counted from 0 in the
/// order given; 0 for an option that is given once), and what is wrong with it.
#[derive(Clone, Copy, Debug, PartialEq, Eq, Structural)]
pub struct ConfigError {
    pub option: OptionName,
    pub index: usize,
    pub kind: ErrorKind,
}

impl ConfigError {
    /// The error of an option that takes one value at most.
    pub open spec fn of(option: OptionName, kind: ErrorKind) -> ConfigError {
        ConfigError { option, index: 0, kind }
    }

    /// The error of an option that takes one value at most.
    pub fn new(option: OptionName, kind: ErrorKind) -> (r: ConfigError)
        ensures
            r == ConfigError::of(option, kind),
    {
        ConfigError { option, index: 0, kind }
    }

    /// The error of the value at `index` among those of a repeatable option.
    pub open spec fn at(option: OptionName, index: int, kind: ErrorKind) -> ConfigError {
        ConfigError { option, index: index as usize, kind }
    }
}

} // verus!
