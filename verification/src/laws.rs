//! What holds of every combination and of every build.

use vstd::prelude::*;
use crate::builder::{
    build, build_shorthand, combo_results, field_results, rank_error, rank_of, scalar_or,
    single_groups, transform_results, unsigned_or, RANK_DELIMITER,
};
use crate::error::{ConfigError, ErrorKind, OptionName};
use crate::gather::{gathered, lemma_gathered_steps, lemma_gathered_values};
use crate::model_instance::{
    combo_letters, combo_of, outcome, FeatureComboDescView, ModelInstance, ModelInstanceView,
    Optimizer, FFM_MAX_K, WEIGHT_DELIMITER,
};
use crate::namespace::{indices_of, namespace_id, resolutions, NamespaceEntry, NamespaceMap};
use crate::options::{CmdlineOptions, CmdlineOptionsView, ComboArgView, ScalarArg, TransformArg};
use crate::scalar::{Scalar, EPSILON_BITS, HALF_BITS, ONE_BITS, ZERO_BITS};
use crate::text::{bounded_decimal, delimited_once, head, lemma_split_point, splits_at, tail};

verus! {

/// Letters resolve one by one and in their order: the indices that come out
/// stand where their letters stood; where none come out, the error names the
/// first letter that stands for no namespace.
pub proof fn lemma_indices_in_order(
    transforms: Seq<NamespaceEntry>,
    vw: Seq<NamespaceEntry>,
    letters: Seq<char>,
)
    ensures
        match indices_of(transforms, vw, letters) {
            Ok(indices) => indices.len() == letters.len() && forall|i: int|
                0 <= i < letters.len() ==> namespace_id(transforms, vw, #[trigger] letters[i])
                    == Some(indices[i]),
            Err(kind) => exists|i: int|
                0 <= i < letters.len() && kind == (ErrorKind::UnknownNamespace {
                    letter: letters[i],
                }) && namespace_id(transforms, vw, letters[i]).is_none() && forall|j: int|
                    0 <= j < i ==> namespace_id(transforms, vw, #[trigger] letters[j]).is_some(),
        },
{
    let results = resolutions(transforms, vw, letters);
    lemma_gathered_steps(results);
    match gathered(results) {
        Ok(indices) => {
            assert forall|i: int| 0 <= i < letters.len() implies namespace_id(
                transforms,
                vw,
                #[trigger] letters[i],
            ) == Some(indices[i]) by {
                assert(results[i] == Ok::<u32, ErrorKind>(indices[i]));
            }
        },
        Err((at, kind)) => {
            assert(results[at] == Err::<u32, ErrorKind>(kind));
            assert forall|j: int| 0 <= j < at implies namespace_id(
                transforms,
                vw,
                #[trigger] letters[j],
            ).is_some() by {
                assert(results[j] is Ok);
            }
        },
    }
}

/// A combination of one letter that stands for a namespace, and of nothing
/// else, has weight one and the one index of its letter.
pub proof fn lemma_single_letter_combo(
    transforms: Seq<NamespaceEntry>,
    vw: Seq<NamespaceEntry>,
    letter: char,
    weight: Option<Scalar>,
)
    requires
        letter != WEIGHT_DELIMITER,
        namespace_id(transforms, vw, letter).is_some(),
    ensures
        combo_of(transforms, vw, ComboArgView { text: seq![letter], weight }) == Ok::<
            FeatureComboDescView,
            ErrorKind,
        >(
            FeatureComboDescView {
                feature_indices: seq![namespace_id(transforms, vw, letter).unwrap()],
                weight: Scalar { bits: ONE_BITS },
            },
        ),
{
    let text = seq![letter];
    assert(!text.contains(WEIGHT_DELIMITER)) by {
        if text.contains(WEIGHT_DELIMITER) {
            let i = choose|i: int| 0 <= i < text.len() && text[i] == WEIGHT_DELIMITER;
            assert(text[i] == letter);
        }
    }
    lemma_gathered_values(
        resolutions(transforms, vw, text),
        seq![namespace_id(transforms, vw, letter).unwrap()],
    );
}

/// A combination with one `:`, at `at`: its letters are those before `at`, in
/// their order, and its weight is the number read behind `at`. Where that is
/// no number the combination fails on that account, whatever its letters;
/// where it is one and no letter stands before `at`, it fails for want of a
/// namespace.
pub proof fn lemma_weighted_combo(
    transforms: Seq<NamespaceEntry>,
    vw: Seq<NamespaceEntry>,
    arg: ComboArgView,
    at: int,
)
    requires
        splits_at(arg.text, WEIGHT_DELIMITER, at),
    ensures
        combo_of(transforms, vw, arg) == match arg.weight {
            None => Err::<FeatureComboDescView, ErrorKind>(ErrorKind::InvalidNumber),
            Some(weight) => if at == 0 {
                Err(ErrorKind::NoNamespaces)
            } else {
                match indices_of(transforms, vw, arg.text.take(at)) {
                    Ok(feature_indices) => Ok(FeatureComboDescView { feature_indices, weight }),
                    Err(kind) => Err(kind),
                }
            },
        },
{
    lemma_split_point(arg.text, WEIGHT_DELIMITER, at);
}

/// A combination that is read has one index at least: one for each of its
/// letters, in their order, and there is a letter.
pub proof fn lemma_combo_has_namespaces(
    transforms: Seq<NamespaceEntry>,
    vw: Seq<NamespaceEntry>,
    arg: ComboArgView,
)
    ensures
        combo_of(transforms, vw, arg) matches Ok(desc) ==> {
            let letters = combo_letters(arg.text);
            &&& desc.feature_indices.len() > 0
            &&& desc.feature_indices.len() == letters.len()
            &&& forall|i: int|
                0 <= i < letters.len() ==> namespace_id(transforms, vw, #[trigger] letters[i])
                    == Some(desc.feature_indices[i])
        },
{
    lemma_indices_in_order(transforms, vw, combo_letters(arg.text));
}

/// A combination fails for one of four causes and no other: more than one `:`,
/// a weight that is no number, no letter, or a letter that stands for no
/// namespace, which is then one of its letters.
pub proof fn lemma_combo_failures(
    transforms: Seq<NamespaceEntry>,
    vw: Seq<NamespaceEntry>,
    arg: ComboArgView,
)
    ensures
        combo_of(transforms, vw, arg) matches Err(kind) ==> {
            ||| kind == ErrorKind::MultipleWeightDelimiters
            ||| kind == ErrorKind::InvalidNumber
            ||| kind == ErrorKind::NoNamespaces
            ||| exists|i: int|
                0 <= i < combo_letters(arg.text).len() && kind == (ErrorKind::UnknownNamespace {
                    letter: #[trigger] combo_letters(arg.text)[i],
                })
        },
{
    lemma_indices_in_order(transforms, vw, combo_letters(arg.text));
    if let Err(kind) = combo_of(transforms, vw, arg) {
        if kind != ErrorKind::MultipleWeightDelimiters && kind != ErrorKind::InvalidNumber && kind
            != ErrorKind::NoNamespaces {
            let letters = combo_letters(arg.text);
            assert(indices_of(transforms, vw, letters) == Err::<Seq<u32>, ErrorKind>(kind));
            let i = choose|i: int|
                0 <= i < letters.len() && kind == (ErrorKind::UnknownNamespace {
                    letter: letters[i],
                }) && namespace_id(transforms, vw, letters[i]).is_none() && forall|j: int|
                    0 <= j < i ==> namespace_id(transforms, vw, #[trigger] letters[j]).is_some();
            assert(kind == (ErrorKind::UnknownNamespace { letter: letters[i] }));
        }
    }
}

/// A combination with two `:` or more fails on that account, whatever its
/// letters and whatever was read as its weight.
pub proof fn lemma_second_delimiter(
    transforms: Seq<NamespaceEntry>,
    vw: Seq<NamespaceEntry>,
    arg: ComboArgView,
    first: int,
    second: int,
)
    requires
        0 <= first < second < arg.text.len(),
        arg.text[first] == WEIGHT_DELIMITER,
        arg.text[second] == WEIGHT_DELIMITER,
    ensures
        combo_of(transforms, vw, arg) == Err::<FeatureComboDescView, ErrorKind>(
            ErrorKind::MultipleWeightDelimiters,
        ),
{
    assert(arg.text.contains(WEIGHT_DELIMITER));
    assert forall|p: int| !splits_at(arg.text, WEIGHT_DELIMITER, p) by {
        if splits_at(arg.text, WEIGHT_DELIMITER, p) {
            if p != first {
                assert(arg.text[first] != WEIGHT_DELIMITER);
            } else {
                assert(arg.text[second] != WEIGHT_DELIMITER);
            }
        }
    }
}

/// Two builds from the same options and namespaces come to the same, field for
/// field: the same configuration or the same error.
pub proof fn lemma_build_twice(
    cl: CmdlineOptions,
    vw: NamespaceMap,
    again_cl: CmdlineOptions,
    again_vw: NamespaceMap,
    first: Result<ModelInstance, ConfigError>,
    second: Result<ModelInstance, ConfigError>,
)
    requires
        cl@ == again_cl@,
        vw@ == again_vw@,
        outcome(first) == build(cl@, vw@),
        outcome(second) == build(again_cl@, again_vw@),
    ensures
        outcome(first) == outcome(second),
{
}

/// The fallbacks of a built configuration. A field-aware value that is given
/// keeps its own value whatever the base value is; one that is not given is
/// what the base value came to, be that given or its default. This holds of the
/// learning rate, of `power_t` and of the initial accumulated gradient.
pub proof fn lemma_fallbacks(cl: CmdlineOptionsView, vw: Seq<NamespaceEntry>, mi: ModelInstanceView)
    requires
        build(cl, vw) == Ok::<ModelInstanceView, ConfigError>(mi),
    ensures
        cl.learning_rate matches Some(ScalarArg::Number(rate)) ==> mi.learning_rate == rate,
        cl.learning_rate.is_none() ==> mi.learning_rate == (Scalar { bits: HALF_BITS }),
        cl.ffm_learning_rate matches Some(ScalarArg::Number(rate)) ==> mi.ffm_learning_rate == rate,
        cl.ffm_learning_rate.is_none() ==> mi.ffm_learning_rate == mi.learning_rate,
        cl.power_t matches Some(ScalarArg::Number(power)) ==> mi.power_t == power,
        cl.power_t.is_none() ==> mi.power_t == (Scalar { bits: HALF_BITS }),
        cl.ffm_power_t matches Some(ScalarArg::Number(power)) ==> mi.ffm_power_t == power,
        cl.ffm_power_t.is_none() ==> mi.ffm_power_t == mi.power_t,
        cl.init_acc_gradient matches Some(ScalarArg::Number(gradient)) ==> mi.init_acc_gradient
            == gradient,
        cl.init_acc_gradient.is_none() && !cl.vwcompat ==> mi.init_acc_gradient == (Scalar {
            bits: ONE_BITS,
        }),
        cl.ffm_init_acc_gradient matches Some(ScalarArg::Number(gradient))
            ==> mi.ffm_init_acc_gradient == gradient,
        cl.ffm_init_acc_gradient.is_none() ==> mi.ffm_init_acc_gradient == mi.init_acc_gradient,
{
}

/// The settings of a build that no other law speaks of. Each is what its
/// option says, or its default where the option is not given: the bit
/// precisions 18, the constant feature and the fast arithmetic on, the
/// strategy `SGD`, every number zero. What no option sets stays as it was.
pub proof fn lemma_settings(cl: CmdlineOptionsView, vw: Seq<NamespaceEntry>, mi: ModelInstanceView)
    requires
        build(cl, vw) == Ok::<ModelInstanceView, ConfigError>(mi),
    ensures
        mi.bit_precision == unsigned_or(cl.bit_precision, u8::MAX as nat, 18),
        mi.ffm_bit_precision == unsigned_or(cl.ffm_bit_precision, u32::MAX as nat, 18),
        mi.add_constant_feature == !cl.noconstant,
        mi.fastmath == !cl.vwcompat,
        mi.optimizer == if cl.adaptive {
            Optimizer::Adagrad
        } else {
            Optimizer::SGD
        },
        mi.minimum_learning_rate == scalar_or(cl.minimum_learning_rate, Scalar { bits: ZERO_BITS }),
        mi.ffm_init_center == scalar_or(cl.ffm_init_center, Scalar { bits: ZERO_BITS }),
        mi.ffm_init_width == scalar_or(cl.ffm_init_width, Scalar { bits: ZERO_BITS }),
        mi.ffm_k_threshold == (Scalar { bits: ZERO_BITS }),
        mi.ffm_init_zero_band == (Scalar { bits: ZERO_BITS }),
        mi.hash_mask == 0,
        !mi.ffm_separate_vectors,
        cl.link.is_some() ==> cl.link == Some("logistic"@),
        cl.loss_function.is_some() ==> cl.loss_function == Some("logistic"@),
        cl.l2 matches Some(ScalarArg::Number(l2)) ==> l2.magnitude_below(
            Scalar { bits: EPSILON_BITS },
        ),
{
}

/// Compatibility mode. Without a `keep` the build fails, and on that account.
/// A build that succeeds had at least one `keep`, `hash` with the value `all`,
/// `sgd` and no `init_acc_gradient`, and it has the fast arithmetic off and the
/// accumulated gradient starting at zero.
pub proof fn lemma_compat(cl: CmdlineOptionsView, vw: Seq<NamespaceEntry>)
    requires
        cl.vwcompat,
    ensures
        cl.keep.len() == 0 ==> build(cl, vw) == Err::<ModelInstanceView, ConfigError>(
            ConfigError::of(OptionName::Keep, ErrorKind::RequiredByCompat),
        ),
        build(cl, vw) matches Ok(mi) ==> {
            &&& cl.keep.len() > 0
            &&& cl.hash == Some("all"@)
            &&& cl.sgd
            &&& cl.init_acc_gradient.is_none()
            &&& !mi.fastmath
            &&& mi.init_acc_gradient == (Scalar { bits: ZERO_BITS })
        },
{
}

/// Compatibility mode with what it asks for and nothing more: `keep`, `hash`
/// with the value `all`, and `sgd`. Where every `keep` stands for a
/// combination, the build succeeds.
pub proof fn lemma_compat_alone(cl: CmdlineOptionsView, vw: Seq<NamespaceEntry>)
    requires
        cl == (CmdlineOptionsView {
            vwcompat: true,
            keep: cl.keep,
            hash: Some("all"@),
            sgd: true,
            ..CmdlineOptionsView::empty()
        }),
        cl.keep.len() > 0,
        forall|i: int|
            0 <= i < cl.keep.len() ==> (#[trigger] combo_of(
                Seq::<NamespaceEntry>::empty(),
                vw,
                cl.keep[i],
            )).is_ok(),
    ensures
        build(cl, vw).is_ok(),
{
    let none = Seq::<NamespaceEntry>::empty();
    lemma_gathered_values(transform_results(cl.transform_namespace), none);
    assert(none + none =~= none);
    let keeps = combo_results(none, vw, cl.keep);
    assert forall|i: int| 0 <= i < keeps.len() implies #[trigger] keeps[i] is Ok by {
        assert(combo_of(none, vw, cl.keep[i]).is_ok());
    }
    lemma_gathered_steps(keeps);
    lemma_gathered_values(
        combo_results(none, vw, cl.interactions),
        Seq::<FeatureComboDescView>::empty(),
    );
    lemma_gathered_values(field_results(none, vw, cl.ffm_field), Seq::<Seq<u32>>::empty());
}

/// What every build that succeeds keeps to: a rank within the bound, bit
/// precisions that are positive, and combinations with one index at least,
/// one for each letter.
pub proof fn lemma_built_is_wf(cl: CmdlineOptionsView, vw: Seq<NamespaceEntry>)
    ensures
        build(cl, vw) matches Ok(mi) ==> mi.wf(),
{
    if let Ok(mi) = build(cl, vw) {
        lemma_combos_in_order(cl, vw, mi);
        assert forall|i: int| 0 <= i < mi.feature_combo_descs.len() implies (
        #[trigger] mi.feature_combo_descs[i]).feature_indices.len() > 0 by {
            if i < cl.keep.len() {
                lemma_combo_has_namespaces(mi.transform_namespaces, vw, cl.keep[i]);
            } else {
                let at = i - cl.keep.len();
                lemma_combo_has_namespaces(mi.transform_namespaces, vw, cl.interactions[at]);
            }
        }
    }
}

/// The bit precisions of a build: a precision of zero is refused, of either
/// option, and what no option sets is 18.
pub proof fn lemma_precisions(cl: CmdlineOptionsView, vw: Seq<NamespaceEntry>)
    ensures
        cl.bit_precision matches Some(text) && bounded_decimal(text, u8::MAX as nat) == Some(0nat)
            ==> build(cl, vw).is_err(),
        cl.ffm_bit_precision matches Some(text) && bounded_decimal(text, u32::MAX as nat) == Some(
            0nat,
        ) ==> build(cl, vw).is_err(),
        build(cl, vw) matches Ok(mi) ==> mi.bit_precision > 0 && mi.ffm_bit_precision > 0,
        build(cl, vw) matches Ok(mi) ==> (cl.bit_precision.is_none() ==> mi.bit_precision == 18),
        build(cl, vw) matches Ok(mi) ==> (cl.ffm_bit_precision.is_none() ==> mi.ffm_bit_precision
            == 18),
{
}

/// The bound on the rank, of either option that sets it. A rank of one above
/// the largest supported one is in error, and the error names both; the
/// largest supported rank itself is in order.
pub proof fn lemma_rank_bound(text: Seq<char>)
    ensures
        bounded_decimal(text, u32::MAX as nat) == Some((FFM_MAX_K + 1) as nat) ==> rank_error(text)
            == Some(ErrorKind::RankTooLarge { max: FFM_MAX_K, given: (FFM_MAX_K + 1) as u32 }),
        bounded_decimal(text, u32::MAX as nat) == Some(FFM_MAX_K as nat) ==> rank_error(
            text,
        ).is_none() && rank_of(text) == FFM_MAX_K,
{
}

/// The rank of a build. With an `ffm_k` in error the build fails, and with
/// this error where compatibility mode, transforms, combinations and shorthand
/// are in order. A build that succeeds has a rank within the bound: that of
/// `ffm_k` where it is given, whatever the shorthand says.
pub proof fn lemma_rank(cl: CmdlineOptionsView, vw: Seq<NamespaceEntry>)
    ensures
        cl.ffm_k.is_some() && rank_error(cl.ffm_k.unwrap()).is_some() ==> build(cl, vw).is_err(),
        cl.ffm_k.is_some() && rank_error(cl.ffm_k.unwrap()).is_some() && build_shorthand(
            cl,
            vw,
        ).is_ok() ==> build(cl, vw) == Err::<ModelInstanceView, ConfigError>(
            ConfigError::of(OptionName::FfmK, rank_error(cl.ffm_k.unwrap()).unwrap()),
        ),
        build(cl, vw) matches Ok(mi) ==> mi.ffm_k <= FFM_MAX_K,
        build(cl, vw) matches Ok(mi) ==> (cl.ffm_k.is_some() ==> mi.ffm_k == rank_of(
            cl.ffm_k.unwrap(),
        )),
{
}

/// The namespaces and combinations of a build. The transforms stand in the
/// order given. The combinations stand in one list, those of `keep` before
/// those of `interactions` and each kind in the order given, and both kinds are
/// read alike, against the namespaces of the input and of all transforms.
pub proof fn lemma_combos_in_order(
    cl: CmdlineOptionsView,
    vw: Seq<NamespaceEntry>,
    mi: ModelInstanceView,
)
    requires
        build(cl, vw) == Ok::<ModelInstanceView, ConfigError>(mi),
    ensures
        mi.transform_namespaces.len() == cl.transform_namespace.len(),
        forall|i: int|
            0 <= i < cl.transform_namespace.len() ==> #[trigger] cl.transform_namespace[i]
                == TransformArg::Defines(mi.transform_namespaces[i]),
        mi.feature_combo_descs.len() == cl.keep.len() + cl.interactions.len(),
        forall|i: int|
            0 <= i < cl.keep.len() ==> combo_of(mi.transform_namespaces, vw, #[trigger] cl.keep[i])
                == Ok::<FeatureComboDescView, ErrorKind>(mi.feature_combo_descs[i]),
        forall|i: int|
            0 <= i < cl.interactions.len() ==> combo_of(
                mi.transform_namespaces,
                vw,
                #[trigger] cl.interactions[i],
            ) == Ok::<FeatureComboDescView, ErrorKind>(mi.feature_combo_descs[cl.keep.len() + i]),
{
    let none = Seq::<NamespaceEntry>::empty();
    let defined = transform_results(cl.transform_namespace);
    lemma_gathered_steps(defined);
    let transforms = gathered(defined)->Ok_0;
    assert(none + transforms =~= transforms);
    assert forall|i: int|
        0 <= i < cl.transform_namespace.len() implies #[trigger] cl.transform_namespace[i]
        == TransformArg::Defines(transforms[i]) by {
        assert(defined[i] == Ok::<NamespaceEntry, ErrorKind>(transforms[i]));
    }
    let kept = combo_results(transforms, vw, cl.keep);
    let crossed = combo_results(transforms, vw, cl.interactions);
    lemma_gathered_steps(kept);
    lemma_gathered_steps(crossed);
    let first = gathered(kept)->Ok_0;
    let second = gathered(crossed)->Ok_0;
    assert(mi.feature_combo_descs == Seq::<FeatureComboDescView>::empty() + first + second);
    assert forall|i: int| 0 <= i < cl.keep.len() implies combo_of(
        mi.transform_namespaces,
        vw,
        #[trigger] cl.keep[i],
    ) == Ok::<FeatureComboDescView, ErrorKind>(mi.feature_combo_descs[i]) by {
        assert(kept[i] == Ok::<FeatureComboDescView, ErrorKind>(first[i]));
    }
    assert forall|i: int| 0 <= i < cl.interactions.len() implies combo_of(
        mi.transform_namespaces,
        vw,
        #[trigger] cl.interactions[i],
    ) == Ok::<FeatureComboDescView, ErrorKind>(mi.feature_combo_descs[cl.keep.len() + i]) by {
        assert(crossed[i] == Ok::<FeatureComboDescView, ErrorKind>(second[i]));
    }
}

/// The field groups of a build. The shorthand gives one group of one index for
/// each of its letters, and the rank unless `ffm_k` is given; the groups of
/// `ffm_field` follow, one for each text with the indices of all its letters.
pub proof fn lemma_fields_in_order(
    cl: CmdlineOptionsView,
    vw: Seq<NamespaceEntry>,
    mi: ModelInstanceView,
)
    requires
        build(cl, vw) == Ok::<ModelInstanceView, ConfigError>(mi),
    ensures
        cl.lrqfa.is_none() ==> mi.ffm_fields.len() == cl.ffm_field.len(),
        cl.lrqfa.is_none() && cl.ffm_k.is_none() ==> mi.ffm_k == 0,
        cl.lrqfa matches Some(text) ==> {
            let letters = head(text, RANK_DELIMITER);
            &&& delimited_once(text, RANK_DELIMITER)
            &&& mi.ffm_fields.len() == letters.len() + cl.ffm_field.len()
            &&& forall|i: int|
                0 <= i < letters.len() ==> namespace_id(
                    mi.transform_namespaces,
                    vw,
                    #[trigger] letters[i],
                ) == Some(#[trigger] mi.ffm_fields[i][0]) && mi.ffm_fields[i].len() == 1
            &&& cl.ffm_k.is_none() ==> mi.ffm_k == rank_of(tail(text, RANK_DELIMITER))
        },
        forall|i: int|
            0 <= i < cl.ffm_field.len() ==> indices_of(
                mi.transform_namespaces,
                vw,
                #[trigger] cl.ffm_field[i],
            ) == Ok::<Seq<u32>, ErrorKind>(
                mi.ffm_fields[mi.ffm_fields.len() - cl.ffm_field.len() + i],
            ),
{
    let none = Seq::<NamespaceEntry>::empty();
    lemma_gathered_steps(transform_results(cl.transform_namespace));
    let transforms = gathered(transform_results(cl.transform_namespace))->Ok_0;
    assert(none + transforms =~= transforms);
    let fields = field_results(transforms, vw, cl.ffm_field);
    lemma_gathered_steps(fields);
    let groups = gathered(fields)->Ok_0;
    let short = build_shorthand(cl, vw)->Ok_0;
    assert(mi.ffm_fields == short.ffm_fields + groups);
    assert forall|i: int| 0 <= i < cl.ffm_field.len() implies indices_of(
        mi.transform_namespaces,
        vw,
        #[trigger] cl.ffm_field[i],
    ) == Ok::<Seq<u32>, ErrorKind>(
        mi.ffm_fields[mi.ffm_fields.len() - cl.ffm_field.len() + i],
    ) by {
        assert(fields[i] == Ok::<Seq<u32>, ErrorKind>(groups[i]));
    }
    match cl.lrqfa {
        None => {
            assert(short.ffm_fields =~= Seq::<Seq<u32>>::empty());
        },
        Some(text) => {
            let letters = head(text, RANK_DELIMITER);
            lemma_indices_in_order(transforms, vw, letters);
            let indices = indices_of(transforms, vw, letters)->Ok_0;
            assert(short.ffm_fields =~= single_groups(indices));
        },
    }
}

} // verus!
