//! From the options of a command line to a configuration: what each group of
//! options adds to the configuration so far, in the order in which the groups
//! are read, and the build that runs them all.

use vstd::prelude::*;
use crate::error::{ConfigError, ErrorKind, OptionName};
use crate::gather::{gathered, lemma_gathered_failure, lemma_gathered_values};
use crate::laws::lemma_built_is_wf;
use crate::model_instance::{
    combo_of, desc_views, group_views, outcome, FeatureComboDesc, FeatureComboDescView,
    ModelInstance, ModelInstanceView, Optimizer, FFM_MAX_K,
};
use crate::namespace::{get_namespace_ids, indices_of, NamespaceEntry, NamespaceMap};
use crate::options::{
    combo_views, text_view, text_views, CmdlineOptions, CmdlineOptionsView, ComboArg,
    ComboArgView, ScalarArg, TransformArg,
};
use crate::scalar::{Scalar, EPSILON_BITS, ZERO_BITS};
use crate::text::{
    bounded_decimal, chars_of, delimited_once, find_delimiter, head, lemma_split_point,
    parse_unsigned, same_text, slice_of, tail, Delimited,
};

verus! {

/// The delimiter between the letters of the field shorthand and its rank.
pub const RANK_DELIMITER: char = '-';

/// What compatibility mode finds wrong, if anything. It asks for at least one
/// `keep`, for `hash` with the value `all`, and for `sgd`, in this order.
/// Without compatibility mode nothing is wrong.
pub open spec fn compat_error(cl: CmdlineOptionsView) -> Option<ConfigError> {
    if !cl.vwcompat {
        None
    } else if cl.keep.len() == 0 {
        Some(ConfigError::of(OptionName::Keep, ErrorKind::RequiredByCompat))
    } else if cl.hash.is_none() {
        Some(ConfigError::of(OptionName::Hash, ErrorKind::RequiredByCompat))
    } else if cl.hash != Some("all"@) {
        Some(ConfigError::of(OptionName::Hash, ErrorKind::HashNotAll))
    } else if !cl.sgd {
        Some(ConfigError::of(OptionName::Sgd, ErrorKind::RequiredByCompat))
    } else {
        None
    }
}

/// Compatibility mode. Where it finds nothing wrong, it switches the fast
/// arithmetic off and starts the accumulated gradient at zero.
pub open spec fn with_compat(mi: ModelInstanceView, cl: CmdlineOptionsView) -> Result<
    ModelInstanceView,
    ConfigError,
> {
    match compat_error(cl) {
        Some(error) => Err(error),
        None => if cl.vwcompat {
            Ok(
                ModelInstanceView {
                    fastmath: false,
                    init_acc_gradient: Scalar { bits: ZERO_BITS },
                    ..mi
                },
            )
        } else {
            Ok(mi)
        },
    }
}

impl CmdlineOptions {
    /// Holds the options to what compatibility mode asks for. This is the first
    /// thing that a build does, before any transform is defined: whoever has
    /// the transform definitions read can ask here first.
    pub fn check_compat(&self) -> (r: Result<(), ConfigError>)
        ensures
            match r {
                Ok(_) => compat_error(self@).is_none(),
                Err(error) => compat_error(self@) == Some(error),
            },
    {
        if !self.vwcompat {
            return Ok(());
        }
        if self.keep.len() == 0 {
            return Err(ConfigError::new(OptionName::Keep, ErrorKind::RequiredByCompat));
        }
        match &self.hash {
            None => {
                return Err(ConfigError::new(OptionName::Hash, ErrorKind::RequiredByCompat));
            },
            Some(hash) => {
                if !same_text(hash.as_str(), "all") {
                    return Err(ConfigError::new(OptionName::Hash, ErrorKind::HashNotAll));
                }
            },
        }
        if !self.sgd {
            return Err(ConfigError::new(OptionName::Sgd, ErrorKind::RequiredByCompat));
        }
        Ok(())
    }
}

fn apply_compat(mi: ModelInstance, cl: &CmdlineOptions) -> (r: Result<ModelInstance, ConfigError>)
    ensures
        outcome(r) == with_compat(mi@, cl@),
{
    cl.check_compat()?;
    let mut mi = mi;
    if cl.vwcompat {
        mi.fastmath = false;
        mi.init_acc_gradient = Scalar { bits: ZERO_BITS };
    }
    Ok(mi)
}

/// What the registry made of each transform definition, in their order.
pub open spec fn transform_results(args: Seq<TransformArg>) -> Seq<
    Result<NamespaceEntry, ErrorKind>,
> {
    Seq::new(
        args.len(),
        |i: int|
            match args[i] {
                TransformArg::Defines(entry) => Ok(entry),
                TransformArg::Rejected => Err(ErrorKind::TransformRejected),
            },
    )
}

/// The transforms: each definition, in the order given, adds the namespace that
/// it defines behind those that are there.
pub open spec fn with_transforms(mi: ModelInstanceView, cl: CmdlineOptionsView) -> Result<
    ModelInstanceView,
    ConfigError,
> {
    match gathered(transform_results(cl.transform_namespace)) {
        Ok(entries) => Ok(
            ModelInstanceView { transform_namespaces: mi.transform_namespaces + entries, ..mi },
        ),
        Err((at, kind)) => Err(ConfigError::at(OptionName::TransformNamespace, at, kind)),
    }
}

fn read_transforms(entries: Vec<NamespaceEntry>, args: &Vec<TransformArg>) -> (r: Result<
    Vec<NamespaceEntry>,
    ConfigError,
>)
    ensures
        match gathered(transform_results(args@)) {
            Ok(more) => r.is_ok() && r.unwrap()@ == entries@ + more,
            Err((at, kind)) => r == Err::<Vec<NamespaceEntry>, ConfigError>(
                ConfigError::at(OptionName::TransformNamespace, at, kind),
            ),
        },
{
    let ghost results = transform_results(args@);
    let ghost before = entries@;
    let mut entries = entries;
    let mut i: usize = 0;
    while i < args.len()
        invariant
            i <= args.len(),
            results == transform_results(args@),
            entries@.len() == before.len() + i,
            entries@.take(before.len() as int) == before,
            forall|j: int|
                0 <= j < i ==> #[trigger] results[j] == Ok::<NamespaceEntry, ErrorKind>(
                    entries@[before.len() + j],
                ),
        decreases args.len() - i,
    {
        match args[i] {
            TransformArg::Defines(entry) => {
                entries.push(entry);
                assert(entries@.take(before.len() as int) =~= before);
            },
            TransformArg::Rejected => {
                proof {
                    lemma_gathered_failure(results, i as int);
                }
                return Err(
                    ConfigError {
                        option: OptionName::TransformNamespace,
                        index: i,
                        kind: ErrorKind::TransformRejected,
                    },
                );
            },
        }
        i += 1;
    }
    proof {
        let more = entries@.skip(before.len() as int);
        lemma_gathered_values(results, more);
        assert(entries@ =~= before + more);
    }
    Ok(entries)
}

fn apply_transforms(mi: ModelInstance, cl: &CmdlineOptions) -> (r: Result<
    ModelInstance,
    ConfigError,
>)
    ensures
        outcome(r) == with_transforms(mi@, cl@),
{
    let mut mi = mi;
    match read_transforms(mi.transform_namespaces.v, &cl.transform_namespace) {
        Ok(entries) => {
            mi.transform_namespaces.v = entries;
            Ok(mi)
        },
        Err(error) => Err(error),
    }
}

/// What each combination stands for, in their order.
pub open spec fn combo_results(
    transforms: Seq<NamespaceEntry>,
    vw: Seq<NamespaceEntry>,
    args: Seq<ComboArgView>,
) -> Seq<Result<FeatureComboDescView, ErrorKind>> {
    Seq::new(args.len(), |i: int| combo_of(transforms, vw, args[i]))
}

/// The combinations of one option, in the order given, behind `descs`.
pub open spec fn with_combos_of(
    descs: Seq<FeatureComboDescView>,
    transforms: Seq<NamespaceEntry>,
    vw: Seq<NamespaceEntry>,
    args: Seq<ComboArgView>,
    option: OptionName,
) -> Result<Seq<FeatureComboDescView>, ConfigError> {
    match gathered(combo_results(transforms, vw, args)) {
        Ok(more) => Ok(descs + more),
        Err((at, kind)) => Err(ConfigError::at(option, at, kind)),
    }
}

/// The feature combinations: those of `keep`, then those of `interactions`,
/// each in the order given and all in one list.
pub open spec fn with_combos(
    mi: ModelInstanceView,
    cl: CmdlineOptionsView,
    vw: Seq<NamespaceEntry>,
) -> Result<ModelInstanceView, ConfigError> {
    match with_combos_of(
        mi.feature_combo_descs,
        mi.transform_namespaces,
        vw,
        cl.keep,
        OptionName::Keep,
    ) {
        Err(error) => Err(error),
        Ok(kept) => match with_combos_of(
            kept,
            mi.transform_namespaces,
            vw,
            cl.interactions,
            OptionName::Interactions,
        ) {
            Err(error) => Err(error),
            Ok(feature_combo_descs) => Ok(ModelInstanceView { feature_combo_descs, ..mi }),
        },
    }
}

fn read_combos(
    descs: Vec<FeatureComboDesc>,
    mi: &ModelInstance,
    vw: &NamespaceMap,
    args: &Vec<ComboArg>,
    option: OptionName,
) -> (r: Result<Vec<FeatureComboDesc>, ConfigError>)
    ensures
        match with_combos_of(
            desc_views(descs@),
            mi@.transform_namespaces,
            vw@,
            combo_views(args@),
            option,
        ) {
            Ok(all) => r.is_ok() && desc_views(r.unwrap()@) == all,
            Err(error) => r == Err::<Vec<FeatureComboDesc>, ConfigError>(error),
        },
{
    let ghost results = combo_results(mi@.transform_namespaces, vw@, combo_views(args@));
    let ghost before = desc_views(descs@);
    let mut descs = descs;
    let mut i: usize = 0;
    while i < args.len()
        invariant
            i <= args.len(),
            results == combo_results(mi@.transform_namespaces, vw@, combo_views(args@)),
            descs@.len() == before.len() + i,
            desc_views(descs@).take(before.len() as int) == before,
            forall|j: int|
                0 <= j < i ==> #[trigger] results[j] == Ok::<FeatureComboDescView, ErrorKind>(
                    descs@[before.len() + j]@,
                ),
        decreases args.len() - i,
    {
        let ghost so_far = desc_views(descs@);
        match mi.create_feature_combo_desc(vw, &args[i]) {
            Ok(desc) => {
                descs.push(desc);
                assert(desc_views(descs@).take(before.len() as int) =~= so_far.take(
                    before.len() as int,
                ));
            },
            Err(kind) => {
                proof {
                    lemma_gathered_failure(results, i as int);
                }
                return Err(ConfigError { option, index: i, kind });
            },
        }
        i += 1;
    }
    proof {
        let more = desc_views(descs@).skip(before.len() as int);
        lemma_gathered_values(results, more);
        assert(desc_views(descs@) =~= before + more);
    }
    Ok(descs)
}

fn apply_combos(mi: ModelInstance, cl: &CmdlineOptions, vw: &NamespaceMap) -> (r: Result<
    ModelInstance,
    ConfigError,
>)
    ensures
        outcome(r) == with_combos(mi@, cl@, vw@),
{
    let mut mi = mi;
    let mut descs: Vec<FeatureComboDesc> = Vec::new();
    std::mem::swap(&mut descs, &mut mi.feature_combo_descs);
    let kept = read_combos(descs, &mi, vw, &cl.keep, OptionName::Keep)?;
    let all = read_combos(kept, &mi, vw, &cl.interactions, OptionName::Interactions)?;
    mi.feature_combo_descs = all;
    Ok(mi)
}

/// Field groups of one index each, one group for each of `indices`.
pub open spec fn single_groups(indices: Seq<u32>) -> Seq<Seq<u32>> {
    Seq::new(indices.len(), |i: int| seq![indices[i]])
}

/// What is wrong with a factorization rank as written, if anything: it is no
/// unsigned number of 32 bits, or it is above the largest supported rank.
pub open spec fn rank_error(text: Seq<char>) -> Option<ErrorKind> {
    match bounded_decimal(text, u32::MAX as nat) {
        None => Some(ErrorKind::InvalidNumber),
        Some(rank) => if rank > FFM_MAX_K {
            Some(ErrorKind::RankTooLarge { max: FFM_MAX_K, given: rank as u32 })
        } else {
            None
        },
    }
}

/// The factorization rank that `text` writes.
pub open spec fn rank_of(text: Seq<char>) -> u32 {
    bounded_decimal(text, u32::MAX as nat).unwrap() as u32
}

/// The field shorthand, letters and rank with one `-` between them: each letter
/// makes a field group of its own, behind those that are there, and the rank is
/// set. The letters are looked at before the rank is.
pub open spec fn with_shorthand(
    mi: ModelInstanceView,
    cl: CmdlineOptionsView,
    vw: Seq<NamespaceEntry>,
) -> Result<ModelInstanceView, ConfigError> {
    match cl.lrqfa {
        None => Ok(mi),
        Some(text) => if !delimited_once(text, RANK_DELIMITER) {
            Err(ConfigError::of(OptionName::Lrqfa, ErrorKind::MalformedShorthand))
        } else {
            match indices_of(mi.transform_namespaces, vw, head(text, RANK_DELIMITER)) {
                Err(kind) => Err(ConfigError::of(OptionName::Lrqfa, kind)),
                Ok(indices) => match rank_error(tail(text, RANK_DELIMITER)) {
                    Some(kind) => Err(ConfigError::of(OptionName::Lrqfa, kind)),
                    None => Ok(
                        ModelInstanceView {
                            ffm_fields: mi.ffm_fields + single_groups(indices),
                            ffm_k: rank_of(tail(text, RANK_DELIMITER)),
                            ..mi
                        },
                    ),
                },
            }
        },
    }
}

fn read_rank(text: &Vec<char>) -> (r: Result<u32, ErrorKind>)
    ensures
        match r {
            Ok(rank) => rank_error(text@).is_none() && rank == rank_of(text@),
            Err(kind) => rank_error(text@) == Some(kind),
        },
{
    match parse_unsigned(text, u32::MAX) {
        None => Err(ErrorKind::InvalidNumber),
        Some(rank) => {
            if rank > FFM_MAX_K {
                Err(ErrorKind::RankTooLarge { max: FFM_MAX_K, given: rank })
            } else {
                Ok(rank)
            }
        },
    }
}

fn push_single_groups(groups: Vec<Vec<u32>>, indices: &Vec<u32>) -> (r: Vec<Vec<u32>>)
    ensures
        group_views(r@) == group_views(groups@) + single_groups(indices@),
{
    let ghost before = group_views(groups@);
    let mut groups = groups;
    let mut i: usize = 0;
    while i < indices.len()
        invariant
            i <= indices.len(),
            group_views(groups@) == before + single_groups(indices@.take(i as int)),
        decreases indices.len() - i,
    {
        let ghost so_far = group_views(groups@);
        let mut group: Vec<u32> = Vec::new();
        group.push(indices[i]);
        groups.push(group);
        assert(group_views(groups@) =~= so_far.push(seq![indices@[i as int]]));
        assert(single_groups(indices@.take(i + 1)) =~= single_groups(indices@.take(i as int)).push(
            seq![indices@[i as int]],
        ));
        i += 1;
    }
    assert(indices@.take(i as int) =~= indices@);
    groups
}

fn apply_shorthand(mi: ModelInstance, cl: &CmdlineOptions, vw: &NamespaceMap) -> (r: Result<
    ModelInstance,
    ConfigError,
>)
    ensures
        outcome(r) == with_shorthand(mi@, cl@, vw@),
{
    let mut mi = mi;
    match &cl.lrqfa {
        None => Ok(mi),
        Some(text) => {
            let chars = chars_of(text.as_str());
            match find_delimiter(&chars, RANK_DELIMITER) {
                Delimited::Once(at) => {
                    proof {
                        lemma_split_point(chars@, RANK_DELIMITER, at as int);
                    }
                    let letters = slice_of(&chars, 0, at);
                    let rank_text = slice_of(&chars, at + 1, chars.len());
                    let indices = match get_namespace_ids(&mi.transform_namespaces, vw, &letters) {
                        Ok(indices) => indices,
                        Err(kind) => {
                            return Err(ConfigError::new(OptionName::Lrqfa, kind));
                        },
                    };
                    let rank = match read_rank(&rank_text) {
                        Ok(rank) => rank,
                        Err(kind) => {
                            return Err(ConfigError::new(OptionName::Lrqfa, kind));
                        },
                    };
                    let mut groups: Vec<Vec<u32>> = Vec::new();
                    std::mem::swap(&mut groups, &mut mi.ffm_fields);
                    mi.ffm_fields = push_single_groups(groups, &indices);
                    mi.ffm_k = rank;
                    Ok(mi)
                },
                _ => Err(ConfigError::new(OptionName::Lrqfa, ErrorKind::MalformedShorthand)),
            }
        },
    }
}

/// The error of a real-valued option as given, if any: its text writes no number.
pub open spec fn scalar_error(arg: Option<ScalarArg>, option: OptionName) -> Option<ConfigError> {
    if arg == Some(ScalarArg::Malformed) {
        Some(ConfigError::of(option, ErrorKind::InvalidNumber))
    } else {
        None
    }
}

/// The number of a real-valued option where it is given, else `otherwise`.
pub open spec fn scalar_or(arg: Option<ScalarArg>, otherwise: Scalar) -> Scalar {
    match arg {
        Some(ScalarArg::Number(number)) => number,
        _ => otherwise,
    }
}

/// The error of a bit precision as given, if any: its text writes no unsigned
/// number of `max` at most, or it writes zero.
pub open spec fn bits_error(text: Option<Seq<char>>, option: OptionName, max: nat) -> Option<
    ConfigError,
> {
    match text {
        None => None,
        Some(text) => match bounded_decimal(text, max) {
            None => Some(ConfigError::of(option, ErrorKind::InvalidNumber)),
            Some(bits) => if bits == 0 {
                Some(ConfigError::of(option, ErrorKind::NotPositive))
            } else {
                None
            },
        },
    }
}

/// The number of an unsigned option where it is given, else `otherwise`.
pub open spec fn unsigned_or(text: Option<Seq<char>>, max: nat, otherwise: nat) -> nat {
    match text {
        Some(text) => bounded_decimal(text, max).unwrap(),
        None => otherwise,
    }
}

/// The first thing wrong with the rank and the initial values, if anything: in
/// this order `ffm_k`, `ffm_init_center`, `ffm_init_width`, `init_acc_gradient`
/// (which compatibility mode forbids, whatever its text) and
/// `ffm_init_acc_gradient`.
pub open spec fn factorization_error(cl: CmdlineOptionsView) -> Option<ConfigError> {
    if cl.ffm_k.is_some() && rank_error(cl.ffm_k.unwrap()).is_some() {
        Some(ConfigError::of(OptionName::FfmK, rank_error(cl.ffm_k.unwrap()).unwrap()))
    } else if scalar_error(cl.ffm_init_center, OptionName::FfmInitCenter).is_some() {
        scalar_error(cl.ffm_init_center, OptionName::FfmInitCenter)
    } else if scalar_error(cl.ffm_init_width, OptionName::FfmInitWidth).is_some() {
        scalar_error(cl.ffm_init_width, OptionName::FfmInitWidth)
    } else if cl.init_acc_gradient.is_some() && cl.vwcompat {
        Some(ConfigError::of(OptionName::InitAccGradient, ErrorKind::ForbiddenByCompat))
    } else if scalar_error(cl.init_acc_gradient, OptionName::InitAccGradient).is_some() {
        scalar_error(cl.init_acc_gradient, OptionName::InitAccGradient)
    } else {
        scalar_error(cl.ffm_init_acc_gradient, OptionName::FfmInitAccGradient)
    }
}

/// The rank and the initial values. `ffm_k` overrides the rank of the
/// shorthand. Where `ffm_init_acc_gradient` is not given, it is what
/// `init_acc_gradient` has come to.
pub open spec fn with_factorization(mi: ModelInstanceView, cl: CmdlineOptionsView) -> Result<
    ModelInstanceView,
    ConfigError,
> {
    match factorization_error(cl) {
        Some(error) => Err(error),
        None => {
            let init_acc_gradient = scalar_or(cl.init_acc_gradient, mi.init_acc_gradient);
            Ok(
                ModelInstanceView {
                    ffm_k: match cl.ffm_k {
                        Some(text) => rank_of(text),
                        None => mi.ffm_k,
                    },
                    ffm_init_center: scalar_or(cl.ffm_init_center, mi.ffm_init_center),
                    ffm_init_width: scalar_or(cl.ffm_init_width, mi.ffm_init_width),
                    init_acc_gradient,
                    ffm_init_acc_gradient: scalar_or(cl.ffm_init_acc_gradient, init_acc_gradient),
                    ..mi
                },
            )
        },
    }
}

fn read_scalar(arg: Option<ScalarArg>, option: OptionName, otherwise: Scalar) -> (r: Result<
    Scalar,
    ConfigError,
>)
    ensures
        match r {
            Ok(number) => scalar_error(arg, option).is_none() && number == scalar_or(
                arg,
                otherwise,
            ),
            Err(error) => scalar_error(arg, option) == Some(error),
        },
{
    match arg {
        None => Ok(otherwise),
        Some(ScalarArg::Number(number)) => Ok(number),
        Some(ScalarArg::Malformed) => Err(ConfigError::new(option, ErrorKind::InvalidNumber)),
    }
}

fn read_bits(text: &Option<String>, option: OptionName, max: u32, otherwise: u32) -> (r: Result<
    u32,
    ConfigError,
>)
    requires
        otherwise <= max,
    ensures
        match r {
            Ok(number) => bits_error(text_view(*text), option, max as nat).is_none() && number
                == unsigned_or(text_view(*text), max as nat, otherwise as nat) && number <= max,
            Err(error) => bits_error(text_view(*text), option, max as nat) == Some(error),
        },
{
    match text {
        None => Ok(otherwise),
        Some(text) => {
            let chars = chars_of(text.as_str());
            match parse_unsigned(&chars, max) {
                Some(number) => {
                    if number == 0 {
                        Err(ConfigError::new(option, ErrorKind::NotPositive))
                    } else {
                        Ok(number)
                    }
                },
                None => Err(ConfigError::new(option, ErrorKind::InvalidNumber)),
            }
        },
    }
}

fn apply_factorization(mi: ModelInstance, cl: &CmdlineOptions) -> (r: Result<
    ModelInstance,
    ConfigError,
>)
    ensures
        outcome(r) == with_factorization(mi@, cl@),
{
    let mut mi = mi;
    match &cl.ffm_k {
        None => {},
        Some(text) => {
            let chars = chars_of(text.as_str());
            match read_rank(&chars) {
                Ok(rank) => {
                    mi.ffm_k = rank;
                },
                Err(kind) => {
                    return Err(ConfigError::new(OptionName::FfmK, kind));
                },
            }
        },
    }
    mi.ffm_init_center =
        read_scalar(cl.ffm_init_center, OptionName::FfmInitCenter, mi.ffm_init_center)?;
    mi.ffm_init_width =
        read_scalar(cl.ffm_init_width, OptionName::FfmInitWidth, mi.ffm_init_width)?;
    if cl.init_acc_gradient.is_some() && cl.vwcompat {
        return Err(ConfigError::new(OptionName::InitAccGradient, ErrorKind::ForbiddenByCompat));
    }
    mi.init_acc_gradient =
        read_scalar(cl.init_acc_gradient, OptionName::InitAccGradient, mi.init_acc_gradient)?;
    mi.ffm_init_acc_gradient = read_scalar(
        cl.ffm_init_acc_gradient,
        OptionName::FfmInitAccGradient,
        mi.init_acc_gradient,
    )?;
    Ok(mi)
}

/// What each field text stands for, in their order.
pub open spec fn field_results(
    transforms: Seq<NamespaceEntry>,
    vw: Seq<NamespaceEntry>,
    texts: Seq<Seq<char>>,
) -> Seq<Result<Seq<u32>, ErrorKind>> {
    Seq::new(texts.len(), |i: int| indices_of(transforms, vw, texts[i]))
}

/// The explicit field groups: each text, in the order given, makes one group of
/// all its letters, behind the groups that are there.
pub open spec fn with_fields(
    mi: ModelInstanceView,
    cl: CmdlineOptionsView,
    vw: Seq<NamespaceEntry>,
) -> Result<ModelInstanceView, ConfigError> {
    match gathered(field_results(mi.transform_namespaces, vw, cl.ffm_field)) {
        Ok(groups) => Ok(ModelInstanceView { ffm_fields: mi.ffm_fields + groups, ..mi }),
        Err((at, kind)) => Err(ConfigError::at(OptionName::FfmField, at, kind)),
    }
}

fn read_fields(
    groups: Vec<Vec<u32>>,
    mi: &ModelInstance,
    vw: &NamespaceMap,
    texts: &Vec<String>,
) -> (r: Result<Vec<Vec<u32>>, ConfigError>)
    ensures
        match gathered(field_results(mi@.transform_namespaces, vw@, text_views(texts@))) {
            Ok(more) => r.is_ok() && group_views(r.unwrap()@) == group_views(groups@) + more,
            Err((at, kind)) => r == Err::<Vec<Vec<u32>>, ConfigError>(
                ConfigError::at(OptionName::FfmField, at, kind),
            ),
        },
{
    let ghost results = field_results(mi@.transform_namespaces, vw@, text_views(texts@));
    let ghost before = group_views(groups@);
    let mut groups = groups;
    let mut i: usize = 0;
    while i < texts.len()
        invariant
            i <= texts.len(),
            results == field_results(mi@.transform_namespaces, vw@, text_views(texts@)),
            groups@.len() == before.len() + i,
            group_views(groups@).take(before.len() as int) == before,
            forall|j: int|
                0 <= j < i ==> #[trigger] results[j] == Ok::<Seq<u32>, ErrorKind>(
                    groups@[before.len() + j]@,
                ),
        decreases texts.len() - i,
    {
        let ghost so_far = group_views(groups@);
        let letters = chars_of(texts[i].as_str());
        match get_namespace_ids(&mi.transform_namespaces, vw, &letters) {
            Ok(group) => {
                groups.push(group);
                assert(group_views(groups@).take(before.len() as int) =~= so_far.take(
                    before.len() as int,
                ));
            },
            Err(kind) => {
                proof {
                    lemma_gathered_failure(results, i as int);
                }
                return Err(ConfigError { option: OptionName::FfmField, index: i, kind });
            },
        }
        i += 1;
    }
    proof {
        let more = group_views(groups@).skip(before.len() as int);
        lemma_gathered_values(results, more);
        assert(group_views(groups@) =~= before + more);
    }
    Ok(groups)
}

fn apply_fields(mi: ModelInstance, cl: &CmdlineOptions, vw: &NamespaceMap) -> (r: Result<
    ModelInstance,
    ConfigError,
>)
    ensures
        outcome(r) == with_fields(mi@, cl@, vw@),
{
    let mut mi = mi;
    let mut groups: Vec<Vec<u32>> = Vec::new();
    std::mem::swap(&mut groups, &mut mi.ffm_fields);
    match read_fields(groups, &mi, vw, &cl.ffm_field) {
        Ok(all) => {
            mi.ffm_fields = all;
            Ok(mi)
        },
        Err(error) => Err(error),
    }
}

/// The first thing wrong with the bit precisions, if anything: `ffm_bit_precision`
/// is a positive number of 32 bits, `bit_precision` one of 8 bits.
pub open spec fn precision_error(cl: CmdlineOptionsView) -> Option<ConfigError> {
    if bits_error(
        cl.ffm_bit_precision,
        OptionName::FfmBitPrecision,
        u32::MAX as nat,
    ).is_some() {
        bits_error(cl.ffm_bit_precision, OptionName::FfmBitPrecision, u32::MAX as nat)
    } else {
        bits_error(cl.bit_precision, OptionName::BitPrecision, u8::MAX as nat)
    }
}

/// The bit precisions of the two hashing spaces. Each is the exponent of the
/// size of its space, and positive.
pub open spec fn with_precisions(mi: ModelInstanceView, cl: CmdlineOptionsView) -> Result<
    ModelInstanceView,
    ConfigError,
> {
    match precision_error(cl) {
        Some(error) => Err(error),
        None => Ok(
            ModelInstanceView {
                ffm_bit_precision: unsigned_or(
                    cl.ffm_bit_precision,
                    u32::MAX as nat,
                    mi.ffm_bit_precision as nat,
                ) as u32,
                bit_precision: unsigned_or(
                    cl.bit_precision,
                    u8::MAX as nat,
                    mi.bit_precision as nat,
                ) as u8,
                ..mi
            },
        ),
    }
}

/// A line that is owed to the user: the bit width that one of the two
/// precision options came to.
#[derive(Clone, Copy, Debug, PartialEq, Eq, Structural)]
pub enum Notice {
    FfmBitPrecision(u32),
    BitPrecision(u8),
}

/// The notices that reading the bit precisions gives rise to: one for each of
/// the two options that is given and in order, `ffm_bit_precision` first, and
/// none for `bit_precision` where `ffm_bit_precision` is in error. A notice
/// gives the bit width that is in force from then on.
pub open spec fn precision_notices(cl: CmdlineOptionsView) -> Seq<Notice> {
    let ffm_bits = unsigned_or(cl.ffm_bit_precision, u32::MAX as nat, 0) as u32;
    let bits = unsigned_or(cl.bit_precision, u8::MAX as nat, 0) as u8;
    if bits_error(
        cl.ffm_bit_precision,
        OptionName::FfmBitPrecision,
        u32::MAX as nat,
    ).is_some() {
        Seq::empty()
    } else if bits_error(cl.bit_precision, OptionName::BitPrecision, u8::MAX as nat).is_some() {
        if cl.ffm_bit_precision.is_some() {
            seq![Notice::FfmBitPrecision(ffm_bits)]
        } else {
            Seq::empty()
        }
    } else if cl.ffm_bit_precision.is_some() && cl.bit_precision.is_some() {
        seq![Notice::FfmBitPrecision(ffm_bits), Notice::BitPrecision(bits)]
    } else if cl.ffm_bit_precision.is_some() {
        seq![Notice::FfmBitPrecision(ffm_bits)]
    } else if cl.bit_precision.is_some() {
        seq![Notice::BitPrecision(bits)]
    } else {
        Seq::empty()
    }
}

fn apply_precisions(mi: ModelInstance, cl: &CmdlineOptions) -> (r: (
    Result<ModelInstance, ConfigError>,
    Vec<Notice>,
))
    ensures
        outcome(r.0) == with_precisions(mi@, cl@),
        r.1@ == precision_notices(cl@),
{
    let mut mi = mi;
    let mut notices: Vec<Notice> = Vec::new();
    mi.ffm_bit_precision = match read_bits(
        &cl.ffm_bit_precision,
        OptionName::FfmBitPrecision,
        u32::MAX,
        mi.ffm_bit_precision,
    ) {
        Ok(number) => number,
        Err(error) => {
            return (Err(error), notices);
        },
    };
    if cl.ffm_bit_precision.is_some() {
        notices.push(Notice::FfmBitPrecision(mi.ffm_bit_precision));
    }
    mi.bit_precision = match read_bits(
        &cl.bit_precision,
        OptionName::BitPrecision,
        255,
        mi.bit_precision as u32,
    ) {
        Ok(number) => number as u8,
        Err(error) => {
            return (Err(error), notices);
        },
    };
    if cl.bit_precision.is_some() {
        notices.push(Notice::BitPrecision(mi.bit_precision));
    }
    assert(notices@ =~= precision_notices(cl@));
    (Ok(mi), notices)
}

/// The error of an option that takes `logistic` only, if any.
pub open spec fn logistic_error(text: Option<Seq<char>>, option: OptionName) -> Option<
    ConfigError,
> {
    if text.is_some() && text != Some("logistic"@) {
        Some(ConfigError::of(option, ErrorKind::NotLogistic))
    } else {
        None
    }
}

/// The error of `l2` as given, if any: its text writes no number, or a number
/// whose magnitude is not below the number nearest to 0.00000001.
pub open spec fn l2_error(arg: Option<ScalarArg>) -> Option<ConfigError> {
    match arg {
        None => None,
        Some(ScalarArg::Malformed) => Some(
            ConfigError::of(OptionName::L2, ErrorKind::InvalidNumber),
        ),
        Some(ScalarArg::Number(number)) => if number.magnitude_below(
            Scalar { bits: EPSILON_BITS },
        ) {
            None
        } else {
            Some(ConfigError::of(OptionName::L2, ErrorKind::NotZero))
        },
    }
}

/// The first thing wrong with the rates and the restricted options, if
/// anything: in this order `learning_rate`, `ffm_learning_rate`,
/// `minimum_learning_rate`, `power_t`, `ffm_power_t`, `link`, `loss_function`
/// and `l2`.
pub open spec fn learning_error(cl: CmdlineOptionsView) -> Option<ConfigError> {
    if scalar_error(cl.learning_rate, OptionName::LearningRate).is_some() {
        scalar_error(cl.learning_rate, OptionName::LearningRate)
    } else if scalar_error(cl.ffm_learning_rate, OptionName::FfmLearningRate).is_some() {
        scalar_error(cl.ffm_learning_rate, OptionName::FfmLearningRate)
    } else if scalar_error(cl.minimum_learning_rate, OptionName::MinimumLearningRate).is_some() {
        scalar_error(cl.minimum_learning_rate, OptionName::MinimumLearningRate)
    } else if scalar_error(cl.power_t, OptionName::PowerT).is_some() {
        scalar_error(cl.power_t, OptionName::PowerT)
    } else if scalar_error(cl.ffm_power_t, OptionName::FfmPowerT).is_some() {
        scalar_error(cl.ffm_power_t, OptionName::FfmPowerT)
    } else if logistic_error(cl.link, OptionName::Link).is_some() {
        logistic_error(cl.link, OptionName::Link)
    } else if logistic_error(cl.loss_function, OptionName::LossFunction).is_some() {
        logistic_error(cl.loss_function, OptionName::LossFunction)
    } else {
        l2_error(cl.l2)
    }
}

/// The strategy that the flags select: `adaptive` wins over `sgd`, and without
/// either the strategy stays as it is.
pub open spec fn optimizer_or(cl: CmdlineOptionsView, otherwise: Optimizer) -> Optimizer {
    if cl.adaptive {
        Optimizer::Adagrad
    } else if cl.sgd {
        Optimizer::SGD
    } else {
        otherwise
    }
}

/// The rates, the restricted options and the switches. Where
/// `ffm_learning_rate` is not given, it is what `learning_rate` has come to;
/// `ffm_power_t` follows `power_t` in the same way. `noconstant` switches the
/// constant feature off.
pub open spec fn with_learning(mi: ModelInstanceView, cl: CmdlineOptionsView) -> Result<
    ModelInstanceView,
    ConfigError,
> {
    match learning_error(cl) {
        Some(error) => Err(error),
        None => {
            let learning_rate = scalar_or(cl.learning_rate, mi.learning_rate);
            let power_t = scalar_or(cl.power_t, mi.power_t);
            Ok(
                ModelInstanceView {
                    learning_rate,
                    ffm_learning_rate: scalar_or(cl.ffm_learning_rate, learning_rate),
                    minimum_learning_rate: scalar_or(
                        cl.minimum_learning_rate,
                        mi.minimum_learning_rate,
                    ),
                    power_t,
                    ffm_power_t: scalar_or(cl.ffm_power_t, power_t),
                    add_constant_feature: mi.add_constant_feature && !cl.noconstant,
                    optimizer: optimizer_or(cl, mi.optimizer),
                    ..mi
                },
            )
        },
    }
}

fn check_logistic(text: &Option<String>, option: OptionName) -> (r: Result<(), ConfigError>)
    ensures
        match r {
            Ok(_) => logistic_error(text_view(*text), option).is_none(),
            Err(error) => logistic_error(text_view(*text), option) == Some(error),
        },
{
    match text {
        None => Ok(()),
        Some(text) => {
            if same_text(text.as_str(), "logistic") {
                Ok(())
            } else {
                Err(ConfigError::new(option, ErrorKind::NotLogistic))
            }
        },
    }
}

fn check_l2(arg: Option<ScalarArg>) -> (r: Result<(), ConfigError>)
    ensures
        match r {
            Ok(_) => l2_error(arg).is_none(),
            Err(error) => l2_error(arg) == Some(error),
        },
{
    match arg {
        None => Ok(()),
        Some(ScalarArg::Malformed) => Err(
            ConfigError::new(OptionName::L2, ErrorKind::InvalidNumber),
        ),
        Some(ScalarArg::Number(number)) => {
            if number.is_below_in_magnitude(Scalar { bits: EPSILON_BITS }) {
                Ok(())
            } else {
                Err(ConfigError::new(OptionName::L2, ErrorKind::NotZero))
            }
        },
    }
}

fn apply_learning(mi: ModelInstance, cl: &CmdlineOptions) -> (r: Result<ModelInstance, ConfigError>)
    ensures
        outcome(r) == with_learning(mi@, cl@),
{
    let mut mi = mi;
    mi.learning_rate = read_scalar(cl.learning_rate, OptionName::LearningRate, mi.learning_rate)?;
    mi.ffm_learning_rate =
        read_scalar(cl.ffm_learning_rate, OptionName::FfmLearningRate, mi.learning_rate)?;
    mi.minimum_learning_rate = read_scalar(
        cl.minimum_learning_rate,
        OptionName::MinimumLearningRate,
        mi.minimum_learning_rate,
    )?;
    mi.power_t = read_scalar(cl.power_t, OptionName::PowerT, mi.power_t)?;
    mi.ffm_power_t = read_scalar(cl.ffm_power_t, OptionName::FfmPowerT, mi.power_t)?;
    check_logistic(&cl.link, OptionName::Link)?;
    check_logistic(&cl.loss_function, OptionName::LossFunction)?;
    check_l2(cl.l2)?;
    if cl.noconstant {
        mi.add_constant_feature = false;
    }
    if cl.sgd {
        mi.optimizer = Optimizer::SGD;
    }
    if cl.adaptive {
        mi.optimizer = Optimizer::Adagrad;
    }
    Ok(mi)
}

/// What the options come to before the rank and the initial values are read:
/// compatibility mode, transforms, combinations and field shorthand, each on
/// what the one before it left.
pub open spec fn build_shorthand(cl: CmdlineOptionsView, vw: Seq<NamespaceEntry>) -> Result<
    ModelInstanceView,
    ConfigError,
> {
    match with_compat(ModelInstanceView::empty(), cl) {
        Err(error) => Err(error),
        Ok(mi) => match with_transforms(mi, cl) {
            Err(error) => Err(error),
            Ok(mi) => match with_combos(mi, cl, vw) {
                Err(error) => Err(error),
                Ok(mi) => with_shorthand(mi, cl, vw),
            },
        },
    }
}

/// What the options come to before the bit precisions are read: the above,
/// then rank and initial values, then the explicit field groups.
pub open spec fn build_fields(cl: CmdlineOptionsView, vw: Seq<NamespaceEntry>) -> Result<
    ModelInstanceView,
    ConfigError,
> {
    match build_shorthand(cl, vw) {
        Err(error) => Err(error),
        Ok(mi) => match with_factorization(mi, cl) {
            Err(error) => Err(error),
            Ok(mi) => with_fields(mi, cl, vw),
        },
    }
}

/// What the options come to: the configuration that they describe, or the first
/// thing wrong with them. The options are read in a fixed order, whatever their
/// order on the command line, and the first error ends the build.
pub open spec fn build(cl: CmdlineOptionsView, vw: Seq<NamespaceEntry>) -> Result<
    ModelInstanceView,
    ConfigError,
> {
    match build_fields(cl, vw) {
        Err(error) => Err(error),
        Ok(mi) => match with_precisions(mi, cl) {
            Err(error) => Err(error),
            Ok(mi) => with_learning(mi, cl),
        },
    }
}

fn new_with_fields(cl: &CmdlineOptions, vw: &NamespaceMap) -> (r: Result<
    ModelInstance,
    ConfigError,
>)
    ensures
        outcome(r) == build_fields(cl@, vw@),
{
    let mi = ModelInstance::new_empty()?;
    let mi = apply_compat(mi, cl)?;
    let mi = apply_transforms(mi, cl)?;
    let mi = apply_combos(mi, cl, vw)?;
    let mi = apply_shorthand(mi, cl, vw)?;
    let mi = apply_factorization(mi, cl)?;
    apply_fields(mi, cl, vw)
}

/// The notices that a build gives rise to: those of the bit precisions, where
/// the build gets as far as reading them.
pub open spec fn notices_of(cl: CmdlineOptionsView, vw: Seq<NamespaceEntry>) -> Seq<Notice> {
    if build_fields(cl, vw).is_ok() {
        precision_notices(cl)
    } else {
        Seq::empty()
    }
}

impl ModelInstance {
    /// Builds the configuration that the options describe, against the
    /// namespaces of the input, and says which notices are owed to the user,
    /// whether the build succeeds or not.
    pub fn new_with_notices(cl: &CmdlineOptions, vw: &NamespaceMap) -> (r: (
        Result<ModelInstance, ConfigError>,
        Vec<Notice>,
    ))
        ensures
            outcome(r.0) == build(cl@, vw@),
            r.0 matches Ok(mi) ==> mi@.wf(),
            r.1@ == notices_of(cl@, vw@),
    {
        proof {
            lemma_built_is_wf(cl@, vw@);
        }
        let mi = match new_with_fields(cl, vw) {
            Ok(mi) => mi,
            Err(error) => {
                return (Err(error), Vec::new());
            },
        };
        let (read, notices) = apply_precisions(mi, cl);
        let mi = match read {
            Ok(mi) => mi,
            Err(error) => {
                return (Err(error), notices);
            },
        };
        (apply_learning(mi, cl), notices)
    }

    /// Builds the configuration that the options describe, against the
    /// namespaces of the input.
    pub fn new_from_cmdline(cl: &CmdlineOptions, vw: &NamespaceMap) -> (r: Result<
        ModelInstance,
        ConfigError,
    >)
        ensures
            outcome(r) == build(cl@, vw@),
            r matches Ok(mi) ==> mi@.wf(),
    {
        ModelInstance::new_with_notices(cl, vw).0
    }
}

} // verus!
