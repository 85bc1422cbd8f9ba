use model_instance::{
    weight_text, CmdlineOptions, ComboArg, ConfigError, ErrorKind, FeatureComboDesc, ModelInstance,
    NamespaceEntry, NamespaceMap, Notice, Optimizer, OptionName, Scalar, ScalarArg, TransformArg,
    FFM_MAX_K,
};

fn scalar(value: f32) -> Scalar {
    Scalar::from_bits(value.to_bits())
}

/// A real-valued option as a front end hands it over.
fn number(text: &str) -> Option<ScalarArg> {
    Some(match text.parse::<f32>() {
        Ok(value) => ScalarArg::Number(scalar(value)),
        Err(_) => ScalarArg::Malformed,
    })
}

/// A combination as a front end hands it over.
fn combo(text: &str) -> ComboArg {
    ComboArg {
        text: text.to_string(),
        weight: weight_text(text).and_then(|t| t.parse::<f32>().ok()).map(scalar),
    }
}

fn text(value: &str) -> Option<String> {
    Some(value.to_string())
}

/// The namespaces `A` to `C`, with the indices 0 to 2.
fn abc() -> NamespaceMap {
    let mut vw = NamespaceMap::new();
    vw.add('A', 0);
    vw.add('B', 1);
    vw.add('C', 2);
    vw
}

fn fails(cl: &CmdlineOptions, option: OptionName, index: usize, kind: ErrorKind) {
    assert_eq!(ModelInstance::new_from_cmdline(cl, &abc()), Err(ConfigError { option, index, kind }));
}

#[test]
fn no_options_give_the_defaults() {
    let mi = ModelInstance::new_from_cmdline(&CmdlineOptions::new(), &abc()).unwrap();
    let mut expected = ModelInstance::new_empty().unwrap();
    // A field-aware gradient that is not given follows the base one.
    expected.ffm_init_acc_gradient = scalar(1.0);
    assert_eq!(mi, expected);
}

#[test]
fn new_empty_holds_the_defaults() {
    let mi = ModelInstance::new_empty().unwrap();
    assert_eq!(mi.learning_rate, scalar(0.5));
    assert_eq!(mi.ffm_learning_rate, scalar(0.5));
    assert_eq!(mi.minimum_learning_rate, scalar(0.0));
    assert_eq!(mi.bit_precision, 18);
    assert_eq!(mi.hash_mask, 0);
    assert_eq!(mi.power_t, scalar(0.5));
    assert_eq!(mi.ffm_power_t, scalar(0.5));
    assert!(mi.add_constant_feature);
    assert!(mi.feature_combo_descs.is_empty());
    assert!(mi.ffm_fields.is_empty());
    assert_eq!(mi.ffm_k, 0);
    assert_eq!(mi.ffm_bit_precision, 18);
    assert!(!mi.ffm_separate_vectors);
    assert!(mi.fastmath);
    assert_eq!(mi.ffm_k_threshold, scalar(0.0));
    assert_eq!(mi.ffm_init_center, scalar(0.0));
    assert_eq!(mi.ffm_init_width, scalar(0.0));
    assert_eq!(mi.ffm_init_zero_band, scalar(0.0));
    assert_eq!(mi.ffm_init_acc_gradient, scalar(0.0));
    assert_eq!(mi.init_acc_gradient, scalar(1.0));
    assert_eq!(mi.optimizer, Optimizer::SGD);
    assert!(mi.transform_namespaces.v.is_empty());
}

#[test]
fn building_twice_gives_the_same() {
    let mut cl = CmdlineOptions::new();
    cl.keep = vec![combo("A"), combo("B:2")];
    cl.interactions = vec![combo("AB:0.25"), combo("CBA")];
    cl.lrqfa = text("AC-7");
    cl.ffm_field = vec!["AB".to_string()];
    cl.learning_rate = number("0.3");
    cl.power_t = number("0.25");
    cl.bit_precision = text("24");
    cl.adaptive = true;
    let first = ModelInstance::new_from_cmdline(&cl, &abc());
    let second = ModelInstance::new_from_cmdline(&cl, &abc());
    assert!(first.is_ok());
    assert_eq!(first, second);

    cl.ffm_k = text("many");
    let first = ModelInstance::new_from_cmdline(&cl, &abc());
    let second = ModelInstance::new_from_cmdline(&cl.clone(), &abc());
    assert!(first.is_err());
    assert_eq!(first, second);
}

#[test]
fn ffm_learning_rate_falls_back_to_learning_rate() {
    let mut cl = CmdlineOptions::new();
    cl.learning_rate = number("0.3");
    let mi = ModelInstance::new_from_cmdline(&cl, &abc()).unwrap();
    assert_eq!(mi.learning_rate, scalar(0.3));
    assert_eq!(mi.ffm_learning_rate, scalar(0.3));
    assert_eq!(mi.ffm_learning_rate.to_bits(), 0x3e99_999a);

    cl.ffm_learning_rate = number("0.7");
    let mi = ModelInstance::new_from_cmdline(&cl, &abc()).unwrap();
    assert_eq!(mi.learning_rate, scalar(0.3));
    assert_eq!(mi.ffm_learning_rate, scalar(0.7));

    cl.learning_rate = None;
    let mi = ModelInstance::new_from_cmdline(&cl, &abc()).unwrap();
    assert_eq!(mi.learning_rate, scalar(0.5));
    assert_eq!(mi.ffm_learning_rate, scalar(0.7));
}

#[test]
fn ffm_power_t_falls_back_to_power_t() {
    let mut cl = CmdlineOptions::new();
    cl.power_t = number("0.125");
    cl.minimum_learning_rate = number("0.001");
    let mi = ModelInstance::new_from_cmdline(&cl, &abc()).unwrap();
    assert_eq!(mi.power_t, scalar(0.125));
    assert_eq!(mi.ffm_power_t, scalar(0.125));
    assert_eq!(mi.minimum_learning_rate, scalar(0.001));

    cl.ffm_power_t = number("0.75");
    let mi = ModelInstance::new_from_cmdline(&cl, &abc()).unwrap();
    assert_eq!(mi.power_t, scalar(0.125));
    assert_eq!(mi.ffm_power_t, scalar(0.75));
}

#[test]
fn ffm_init_acc_gradient_falls_back_to_init_acc_gradient() {
    let mut cl = CmdlineOptions::new();
    cl.init_acc_gradient = number("0.2");
    cl.ffm_init_center = number("0.1");
    cl.ffm_init_width = number("-4");
    let mi = ModelInstance::new_from_cmdline(&cl, &abc()).unwrap();
    assert_eq!(mi.init_acc_gradient, scalar(0.2));
    assert_eq!(mi.ffm_init_acc_gradient, scalar(0.2));
    assert_eq!(mi.ffm_init_center, scalar(0.1));
    assert_eq!(mi.ffm_init_width, scalar(-4.0));

    cl.ffm_init_acc_gradient = number("0.9");
    let mi = ModelInstance::new_from_cmdline(&cl, &abc()).unwrap();
    assert_eq!(mi.init_acc_gradient, scalar(0.2));
    assert_eq!(mi.ffm_init_acc_gradient, scalar(0.9));
}

#[test]
fn vwcompat_asks_for_keep_hash_and_sgd() {
    let mut cl = CmdlineOptions::new();
    cl.vwcompat = true;
    fails(&cl, OptionName::Keep, 0, ErrorKind::RequiredByCompat);

    cl.keep = vec![combo("A")];
    fails(&cl, OptionName::Hash, 0, ErrorKind::RequiredByCompat);

    cl.hash = text("strings");
    fails(&cl, OptionName::Hash, 0, ErrorKind::HashNotAll);

    cl.hash = text("all");
    fails(&cl, OptionName::Sgd, 0, ErrorKind::RequiredByCompat);

    cl.sgd = true;
    let mi = ModelInstance::new_from_cmdline(&cl, &abc()).unwrap();
    assert!(!mi.fastmath);
    assert_eq!(mi.init_acc_gradient, scalar(0.0));
    assert_eq!(mi.init_acc_gradient.to_bits(), 0);
    assert_eq!(mi.ffm_init_acc_gradient, scalar(0.0));
    assert_eq!(mi.optimizer, Optimizer::SGD);
    assert_eq!(
        mi.feature_combo_descs,
        vec![FeatureComboDesc { feature_indices: vec![0], weight: scalar(1.0) }]
    );
}

#[test]
fn vwcompat_is_checked_before_anything_else() {
    let mut cl = CmdlineOptions::new();
    cl.vwcompat = true;
    cl.transform_namespace = vec![TransformArg::Rejected];
    cl.interactions = vec![combo("Z:1:2")];
    cl.ffm_k = text("x");
    fails(&cl, OptionName::Keep, 0, ErrorKind::RequiredByCompat);
}

#[test]
fn vwcompat_forbids_init_acc_gradient() {
    let mut cl = CmdlineOptions::new();
    cl.vwcompat = true;
    cl.keep = vec![combo("A")];
    cl.hash = text("all");
    cl.sgd = true;
    cl.init_acc_gradient = number("0.5");
    fails(&cl, OptionName::InitAccGradient, 0, ErrorKind::ForbiddenByCompat);
    // Its presence is the error, whatever it holds.
    cl.init_acc_gradient = number("x");
    fails(&cl, OptionName::InitAccGradient, 0, ErrorKind::ForbiddenByCompat);
    // The field-aware gradient is free.
    cl.init_acc_gradient = None;
    cl.ffm_init_acc_gradient = number("0.5");
    let mi = ModelInstance::new_from_cmdline(&cl, &abc()).unwrap();
    assert_eq!(mi.init_acc_gradient, scalar(0.0));
    assert_eq!(mi.ffm_init_acc_gradient, scalar(0.5));
}

#[test]
fn without_vwcompat_fastmath_stays_on() {
    let mut cl = CmdlineOptions::new();
    cl.hash = text("strings");
    let mi = ModelInstance::new_from_cmdline(&cl, &abc()).unwrap();
    assert!(mi.fastmath);
    assert_eq!(mi.init_acc_gradient, scalar(1.0));
}

#[test]
fn ffm_k_is_bounded() {
    let mut cl = CmdlineOptions::new();
    cl.ffm_k = Some((FFM_MAX_K + 1).to_string());
    fails(
        &cl,
        OptionName::FfmK,
        0,
        ErrorKind::RankTooLarge { max: FFM_MAX_K, given: FFM_MAX_K + 1 },
    );
    cl.ffm_k = Some(FFM_MAX_K.to_string());
    let mi = ModelInstance::new_from_cmdline(&cl, &abc()).unwrap();
    assert_eq!(mi.ffm_k, FFM_MAX_K);
    assert_eq!(FFM_MAX_K, 128);

    cl.ffm_k = text("4294967295");
    fails(&cl, OptionName::FfmK, 0, ErrorKind::RankTooLarge { max: 128, given: u32::MAX });
    cl.ffm_k = text("4294967296");
    fails(&cl, OptionName::FfmK, 0, ErrorKind::InvalidNumber);
    cl.ffm_k = text("-1");
    fails(&cl, OptionName::FfmK, 0, ErrorKind::InvalidNumber);
    cl.ffm_k = text("");
    fails(&cl, OptionName::FfmK, 0, ErrorKind::InvalidNumber);
    cl.ffm_k = text("0");
    assert_eq!(ModelInstance::new_from_cmdline(&cl, &abc()).unwrap().ffm_k, 0);
}

#[test]
fn lrqfa_makes_one_group_for_each_letter() {
    let mut vw = NamespaceMap::new();
    vw.add('A', 0);
    vw.add('B', 1);
    let mut cl = CmdlineOptions::new();
    cl.lrqfa = text("AB-4");
    let mi = ModelInstance::new_from_cmdline(&cl, &vw).unwrap();
    assert_eq!(mi.ffm_fields, vec![vec![0], vec![1]]);
    assert_eq!(mi.ffm_k, 4);
}

#[test]
fn lrqfa_takes_one_hyphen() {
    let mut cl = CmdlineOptions::new();
    cl.lrqfa = text("AB4");
    fails(&cl, OptionName::Lrqfa, 0, ErrorKind::MalformedShorthand);
    cl.lrqfa = text("A-B-4");
    fails(&cl, OptionName::Lrqfa, 0, ErrorKind::MalformedShorthand);
    cl.lrqfa = text("");
    fails(&cl, OptionName::Lrqfa, 0, ErrorKind::MalformedShorthand);
    cl.lrqfa = text("-3");
    let mi = ModelInstance::new_from_cmdline(&cl, &abc()).unwrap();
    assert!(mi.ffm_fields.is_empty());
    assert_eq!(mi.ffm_k, 3);
}

#[test]
fn lrqfa_rank_is_a_number_within_the_bound() {
    let mut cl = CmdlineOptions::new();
    cl.lrqfa = text("AB-x");
    fails(&cl, OptionName::Lrqfa, 0, ErrorKind::InvalidNumber);
    cl.lrqfa = text("AB-");
    fails(&cl, OptionName::Lrqfa, 0, ErrorKind::InvalidNumber);
    cl.lrqfa = text("AB-129");
    fails(&cl, OptionName::Lrqfa, 0, ErrorKind::RankTooLarge { max: 128, given: 129 });
    cl.lrqfa = text("AB-128");
    assert_eq!(ModelInstance::new_from_cmdline(&cl, &abc()).unwrap().ffm_k, 128);
    // The letters are looked at before the rank is.
    cl.lrqfa = text("AZ-x");
    fails(&cl, OptionName::Lrqfa, 0, ErrorKind::UnknownNamespace { letter: 'Z' });
}

#[test]
fn ffm_k_overrides_the_rank_of_lrqfa() {
    let mut cl = CmdlineOptions::new();
    cl.lrqfa = text("AB-4");
    cl.ffm_k = text("9");
    let mi = ModelInstance::new_from_cmdline(&cl, &abc()).unwrap();
    assert_eq!(mi.ffm_k, 9);
    assert_eq!(mi.ffm_fields, vec![vec![0], vec![1]]);
    // The shorthand is read first, and its rank is held to the bound too.
    cl.lrqfa = text("AB-500");
    fails(&cl, OptionName::Lrqfa, 0, ErrorKind::RankTooLarge { max: 128, given: 500 });
}

#[test]
fn ffm_field_makes_one_group_for_each_text() {
    let mut cl = CmdlineOptions::new();
    cl.ffm_field = vec!["AB".to_string(), "C".to_string(), "".to_string(), "CA".to_string()];
    let mi = ModelInstance::new_from_cmdline(&cl, &abc()).unwrap();
    assert_eq!(mi.ffm_fields, vec![vec![0, 1], vec![2], vec![], vec![2, 0]]);
    assert_eq!(mi.ffm_k, 0);
}

#[test]
fn ffm_field_groups_follow_those_of_lrqfa() {
    let mut cl = CmdlineOptions::new();
    cl.lrqfa = text("CA-2");
    cl.ffm_field = vec!["AB".to_string()];
    let mi = ModelInstance::new_from_cmdline(&cl, &abc()).unwrap();
    assert_eq!(mi.ffm_fields, vec![vec![2], vec![0], vec![0, 1]]);
}

#[test]
fn ffm_field_names_the_text_and_the_letter_at_fault() {
    let mut cl = CmdlineOptions::new();
    cl.ffm_field = vec!["AB".to_string(), "BQA".to_string(), "Z".to_string()];
    fails(&cl, OptionName::FfmField, 1, ErrorKind::UnknownNamespace { letter: 'Q' });
    // A field text takes no weight: its `:` is a letter like any other.
    cl.ffm_field = vec!["A:2".to_string()];
    fails(&cl, OptionName::FfmField, 0, ErrorKind::UnknownNamespace { letter: ':' });
}

#[test]
fn keep_and_interactions_fill_one_list() {
    let mut cl = CmdlineOptions::new();
    cl.interactions = vec![combo("AB:2"), combo("BC")];
    cl.keep = vec![combo("C"), combo("A:0.5")];
    let mi = ModelInstance::new_from_cmdline(&cl, &abc()).unwrap();
    assert_eq!(
        mi.feature_combo_descs,
        vec![
            FeatureComboDesc { feature_indices: vec![2], weight: scalar(1.0) },
            FeatureComboDesc { feature_indices: vec![0], weight: scalar(0.5) },
            FeatureComboDesc { feature_indices: vec![0, 1], weight: scalar(2.0) },
            FeatureComboDesc { feature_indices: vec![1, 2], weight: scalar(1.0) },
        ]
    );
}

#[test]
fn combination_at_fault_is_named() {
    let mut cl = CmdlineOptions::new();
    cl.keep = vec![combo("A"), combo("B"), combo("A:1:2"), combo("Z")];
    fails(&cl, OptionName::Keep, 2, ErrorKind::MultipleWeightDelimiters);
    cl.keep = vec![combo("A"), combo("B:x")];
    cl.interactions = vec![combo("Z")];
    fails(&cl, OptionName::Keep, 1, ErrorKind::InvalidNumber);
    cl.keep = vec![combo("A")];
    cl.interactions = vec![combo("AB"), combo("AZ"), combo("Y")];
    fails(&cl, OptionName::Interactions, 1, ErrorKind::UnknownNamespace { letter: 'Z' });
}

#[test]
fn transforms_define_namespaces_for_what_follows() {
    let mut cl = CmdlineOptions::new();
    cl.transform_namespace = vec![
        TransformArg::Defines(NamespaceEntry { letter: 'X', index: 70 }),
        TransformArg::Defines(NamespaceEntry { letter: 'Y', index: 71 }),
    ];
    cl.keep = vec![combo("X")];
    cl.interactions = vec![combo("AY:3")];
    cl.lrqfa = text("YA-2");
    cl.ffm_field = vec!["XB".to_string()];
    let mi = ModelInstance::new_from_cmdline(&cl, &abc()).unwrap();
    assert_eq!(
        mi.transform_namespaces.v,
        vec![NamespaceEntry { letter: 'X', index: 70 }, NamespaceEntry { letter: 'Y', index: 71 }]
    );
    assert_eq!(
        mi.feature_combo_descs,
        vec![
            FeatureComboDesc { feature_indices: vec![70], weight: scalar(1.0) },
            FeatureComboDesc { feature_indices: vec![0, 71], weight: scalar(3.0) },
        ]
    );
    assert_eq!(mi.ffm_fields, vec![vec![71], vec![0], vec![70, 1]]);
}

#[test]
fn rejected_transform_is_named() {
    let mut cl = CmdlineOptions::new();
    cl.transform_namespace = vec![
        TransformArg::Defines(NamespaceEntry { letter: 'X', index: 70 }),
        TransformArg::Rejected,
        TransformArg::Rejected,
    ];
    cl.keep = vec![combo("Q")];
    fails(&cl, OptionName::TransformNamespace, 1, ErrorKind::TransformRejected);
}

#[test]
fn bit_precisions_are_read_and_noticed() {
    let mut cl = CmdlineOptions::new();
    cl.ffm_bit_precision = text("25");
    cl.bit_precision = text("+20");
    let (built, notices) = ModelInstance::new_with_notices(&cl, &abc());
    let mi = built.unwrap();
    assert_eq!(mi.ffm_bit_precision, 25);
    assert_eq!(mi.bit_precision, 20);
    assert_eq!(notices, vec![Notice::FfmBitPrecision(25), Notice::BitPrecision(20)]);

    cl.ffm_bit_precision = None;
    let (built, notices) = ModelInstance::new_with_notices(&cl, &abc());
    assert_eq!(built.unwrap().ffm_bit_precision, 18);
    assert_eq!(notices, vec![Notice::BitPrecision(20)]);

    let (built, notices) = ModelInstance::new_with_notices(&CmdlineOptions::new(), &abc());
    assert_eq!(built.unwrap().bit_precision, 18);
    assert_eq!(notices, vec![]);
}

#[test]
fn bit_precisions_have_their_widths() {
    let mut cl = CmdlineOptions::new();
    cl.bit_precision = text("255");
    assert_eq!(ModelInstance::new_from_cmdline(&cl, &abc()).unwrap().bit_precision, 255);
    cl.bit_precision = text("256");
    fails(&cl, OptionName::BitPrecision, 0, ErrorKind::InvalidNumber);
    cl.bit_precision = None;
    cl.ffm_bit_precision = text("4294967295");
    assert_eq!(ModelInstance::new_from_cmdline(&cl, &abc()).unwrap().ffm_bit_precision, u32::MAX);
    cl.ffm_bit_precision = text("4294967296");
    fails(&cl, OptionName::FfmBitPrecision, 0, ErrorKind::InvalidNumber);
    cl.ffm_bit_precision = text("18 ");
    fails(&cl, OptionName::FfmBitPrecision, 0, ErrorKind::InvalidNumber);
}

#[test]
fn bit_precisions_are_positive() {
    let mut cl = CmdlineOptions::new();
    cl.bit_precision = text("0");
    fails(&cl, OptionName::BitPrecision, 0, ErrorKind::NotPositive);
    cl.bit_precision = text("+000");
    fails(&cl, OptionName::BitPrecision, 0, ErrorKind::NotPositive);
    cl.bit_precision = text("1");
    assert_eq!(ModelInstance::new_from_cmdline(&cl, &abc()).unwrap().bit_precision, 1);

    cl.ffm_bit_precision = text("0");
    fails(&cl, OptionName::FfmBitPrecision, 0, ErrorKind::NotPositive);
    // A width that is refused is not in force, and no notice tells of it.
    let (built, notices) = ModelInstance::new_with_notices(&cl, &abc());
    assert!(built.is_err());
    assert_eq!(notices, vec![]);
    cl.ffm_bit_precision = text("1");
    cl.bit_precision = text("0");
    let (built, notices) = ModelInstance::new_with_notices(&cl, &abc());
    assert_eq!(built.unwrap_err().kind, ErrorKind::NotPositive);
    assert_eq!(notices, vec![Notice::FfmBitPrecision(1)]);
    cl.bit_precision = text("1");
    let mi = ModelInstance::new_from_cmdline(&cl, &abc()).unwrap();
    assert_eq!((mi.ffm_bit_precision, mi.bit_precision), (1, 1));
}

#[test]
fn combinations_without_letters_are_refused() {
    let mut cl = CmdlineOptions::new();
    cl.keep = vec![combo("A"), combo("")];
    fails(&cl, OptionName::Keep, 1, ErrorKind::NoNamespaces);
    cl.keep = vec![combo("A")];
    cl.interactions = vec![combo("AB"), combo("BC:2"), combo(":2")];
    fails(&cl, OptionName::Interactions, 2, ErrorKind::NoNamespaces);
}

#[test]
fn what_is_built_keeps_to_the_invariant() {
    let mut cl = CmdlineOptions::new();
    cl.keep = vec![combo("A"), combo("B:2")];
    cl.interactions = vec![combo("AB:0.25"), combo("CBA")];
    cl.lrqfa = text("AC-128");
    cl.bit_precision = text("255");
    cl.ffm_bit_precision = text("1");
    let mi = ModelInstance::new_from_cmdline(&cl, &abc()).unwrap();
    assert!(mi.ffm_k <= FFM_MAX_K);
    assert!(mi.bit_precision > 0 && mi.ffm_bit_precision > 0);
    assert_eq!(mi.feature_combo_descs.len(), 4);
    assert!(mi.feature_combo_descs.iter().all(|desc| !desc.feature_indices.is_empty()));
}

#[test]
fn compatibility_can_be_checked_on_its_own() {
    let mut cl = CmdlineOptions::new();
    // Without compatibility mode nothing is asked for.
    cl.transform_namespace = vec![TransformArg::Rejected];
    cl.ffm_k = text("x");
    assert_eq!(cl.check_compat(), Ok(()));
    cl.vwcompat = true;
    let refused = |option, kind| Err(ConfigError { option, index: 0, kind });
    assert_eq!(cl.check_compat(), refused(OptionName::Keep, ErrorKind::RequiredByCompat));
    cl.keep = vec![combo("Z:1:2")];
    assert_eq!(cl.check_compat(), refused(OptionName::Hash, ErrorKind::RequiredByCompat));
    cl.hash = text("al");
    assert_eq!(cl.check_compat(), refused(OptionName::Hash, ErrorKind::HashNotAll));
    cl.hash = text("all");
    assert_eq!(cl.check_compat(), refused(OptionName::Sgd, ErrorKind::RequiredByCompat));
    cl.sgd = true;
    // What the other options hold is not looked at here.
    assert_eq!(cl.check_compat(), Ok(()));
    cl.init_acc_gradient = number("1");
    assert_eq!(cl.check_compat(), Ok(()));
}

#[test]
fn notices_are_owed_as_far_as_the_build_got() {
    let mut cl = CmdlineOptions::new();
    cl.ffm_bit_precision = text("25");
    cl.bit_precision = text("x");
    let (built, notices) = ModelInstance::new_with_notices(&cl, &abc());
    assert_eq!(built.unwrap_err().option, OptionName::BitPrecision);
    assert_eq!(notices, vec![Notice::FfmBitPrecision(25)]);

    cl.bit_precision = text("20");
    cl.link = text("identity");
    let (built, notices) = ModelInstance::new_with_notices(&cl, &abc());
    assert_eq!(built.unwrap_err().option, OptionName::Link);
    assert_eq!(notices, vec![Notice::FfmBitPrecision(25), Notice::BitPrecision(20)]);

    cl.ffm_field = vec!["Z".to_string()];
    let (built, notices) = ModelInstance::new_with_notices(&cl, &abc());
    assert_eq!(built.unwrap_err().option, OptionName::FfmField);
    assert_eq!(notices, vec![]);

    cl.ffm_field = vec![];
    cl.ffm_bit_precision = text("x");
    let (built, notices) = ModelInstance::new_with_notices(&cl, &abc());
    assert_eq!(built.unwrap_err().option, OptionName::FfmBitPrecision);
    assert_eq!(notices, vec![]);
}

#[test]
fn numbers_that_are_none_are_named() {
    let options = [
        OptionName::FfmInitCenter,
        OptionName::FfmInitWidth,
        OptionName::InitAccGradient,
        OptionName::FfmInitAccGradient,
        OptionName::LearningRate,
        OptionName::FfmLearningRate,
        OptionName::MinimumLearningRate,
        OptionName::PowerT,
        OptionName::FfmPowerT,
        OptionName::L2,
    ];
    for option in options {
        let mut cl = CmdlineOptions::new();
        let slot = match option {
            OptionName::FfmInitCenter => &mut cl.ffm_init_center,
            OptionName::FfmInitWidth => &mut cl.ffm_init_width,
            OptionName::InitAccGradient => &mut cl.init_acc_gradient,
            OptionName::FfmInitAccGradient => &mut cl.ffm_init_acc_gradient,
            OptionName::LearningRate => &mut cl.learning_rate,
            OptionName::FfmLearningRate => &mut cl.ffm_learning_rate,
            OptionName::MinimumLearningRate => &mut cl.minimum_learning_rate,
            OptionName::PowerT => &mut cl.power_t,
            OptionName::FfmPowerT => &mut cl.ffm_power_t,
            _ => &mut cl.l2,
        };
        *slot = number("half");
        fails(&cl, option, 0, ErrorKind::InvalidNumber);
    }
}

#[test]
fn errors_come_in_the_order_of_reading() {
    let mut cl = CmdlineOptions::new();
    cl.l2 = number("1");
    fails(&cl, OptionName::L2, 0, ErrorKind::NotZero);
    cl.loss_function = text("squared");
    fails(&cl, OptionName::LossFunction, 0, ErrorKind::NotLogistic);
    cl.link = text("identity");
    fails(&cl, OptionName::Link, 0, ErrorKind::NotLogistic);
    cl.ffm_power_t = number("x");
    fails(&cl, OptionName::FfmPowerT, 0, ErrorKind::InvalidNumber);
    cl.power_t = number("x");
    fails(&cl, OptionName::PowerT, 0, ErrorKind::InvalidNumber);
    cl.minimum_learning_rate = number("x");
    fails(&cl, OptionName::MinimumLearningRate, 0, ErrorKind::InvalidNumber);
    cl.ffm_learning_rate = number("x");
    fails(&cl, OptionName::FfmLearningRate, 0, ErrorKind::InvalidNumber);
    cl.learning_rate = number("x");
    fails(&cl, OptionName::LearningRate, 0, ErrorKind::InvalidNumber);
    cl.bit_precision = text("x");
    fails(&cl, OptionName::BitPrecision, 0, ErrorKind::InvalidNumber);
    cl.ffm_bit_precision = text("x");
    fails(&cl, OptionName::FfmBitPrecision, 0, ErrorKind::InvalidNumber);
    cl.ffm_field = vec!["Z".to_string()];
    fails(&cl, OptionName::FfmField, 0, ErrorKind::UnknownNamespace { letter: 'Z' });
    cl.ffm_init_acc_gradient = number("x");
    fails(&cl, OptionName::FfmInitAccGradient, 0, ErrorKind::InvalidNumber);
    cl.init_acc_gradient = number("x");
    fails(&cl, OptionName::InitAccGradient, 0, ErrorKind::InvalidNumber);
    cl.ffm_init_width = number("x");
    fails(&cl, OptionName::FfmInitWidth, 0, ErrorKind::InvalidNumber);
    cl.ffm_init_center = number("x");
    fails(&cl, OptionName::FfmInitCenter, 0, ErrorKind::InvalidNumber);
    cl.ffm_k = text("x");
    fails(&cl, OptionName::FfmK, 0, ErrorKind::InvalidNumber);
    cl.lrqfa = text("x");
    fails(&cl, OptionName::Lrqfa, 0, ErrorKind::MalformedShorthand);
    cl.interactions = vec![combo("Z")];
    fails(&cl, OptionName::Interactions, 0, ErrorKind::UnknownNamespace { letter: 'Z' });
    cl.keep = vec![combo("Z")];
    fails(&cl, OptionName::Keep, 0, ErrorKind::UnknownNamespace { letter: 'Z' });
    cl.transform_namespace = vec![TransformArg::Rejected];
    fails(&cl, OptionName::TransformNamespace, 0, ErrorKind::TransformRejected);
    cl.vwcompat = true;
    fails(&cl, OptionName::Hash, 0, ErrorKind::RequiredByCompat);
}

#[test]
fn link_and_loss_function_take_logistic_only() {
    let mut cl = CmdlineOptions::new();
    cl.link = text("logistic");
    cl.loss_function = text("logistic");
    assert!(ModelInstance::new_from_cmdline(&cl, &abc()).is_ok());
    cl.loss_function = text("Logistic");
    fails(&cl, OptionName::LossFunction, 0, ErrorKind::NotLogistic);
    cl.loss_function = text("logistic");
    cl.link = text("logistic ");
    fails(&cl, OptionName::Link, 0, ErrorKind::NotLogistic);
    cl.link = text("");
    fails(&cl, OptionName::Link, 0, ErrorKind::NotLogistic);
}

#[test]
fn l2_takes_zero_only() {
    let mut cl = CmdlineOptions::new();
    for accepted in ["0", "0.0", "-0.0", "0.000000001", "-0.0000000099", "1e-30"] {
        cl.l2 = number(accepted);
        assert!(ModelInstance::new_from_cmdline(&cl, &abc()).is_ok(), "{}", accepted);
    }
    for refused in ["0.00000001", "-0.00000001", "0.0000001", "1", "-1", "inf", "-inf", "NaN"] {
        cl.l2 = number(refused);
        fails(&cl, OptionName::L2, 0, ErrorKind::NotZero);
    }
}

#[test]
fn noconstant_switches_the_constant_feature_off() {
    let mut cl = CmdlineOptions::new();
    assert!(ModelInstance::new_from_cmdline(&cl, &abc()).unwrap().add_constant_feature);
    cl.noconstant = true;
    assert!(!ModelInstance::new_from_cmdline(&cl, &abc()).unwrap().add_constant_feature);
}

#[test]
fn adaptive_wins_over_sgd() {
    let mut cl = CmdlineOptions::new();
    assert_eq!(ModelInstance::new_from_cmdline(&cl, &abc()).unwrap().optimizer, Optimizer::SGD);
    cl.sgd = true;
    assert_eq!(ModelInstance::new_from_cmdline(&cl, &abc()).unwrap().optimizer, Optimizer::SGD);
    cl.adaptive = true;
    assert_eq!(ModelInstance::new_from_cmdline(&cl, &abc()).unwrap().optimizer, Optimizer::Adagrad);
    cl.sgd = false;
    assert_eq!(ModelInstance::new_from_cmdline(&cl, &abc()).unwrap().optimizer, Optimizer::Adagrad);
}

#[test]
fn options_that_the_build_does_not_read_change_nothing() {
    let mut cl = CmdlineOptions::new();
    cl.float_namespaces = text("AB");
    cl.float_namespaces_skip_prefix = text("x");
    let mi = ModelInstance::new_from_cmdline(&cl, &abc()).unwrap();
    assert_eq!(mi, ModelInstance::new_from_cmdline(&CmdlineOptions::new(), &abc()).unwrap());
}
