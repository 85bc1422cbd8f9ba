use model_instance::{
    weight_text, ComboArg, ErrorKind, FeatureComboDesc, ModelInstance, NamespaceEntry, NamespaceMap,
    Scalar,
};

fn scalar(value: f32) -> Scalar {
    Scalar::from_bits(value.to_bits())
}

/// The combination as a front end hands it over: the text, and the number read
/// in what follows its one `:`.
fn combo(text: &str) -> ComboArg {
    ComboArg {
        text: text.to_string(),
        weight: weight_text(text).and_then(|t| t.parse::<f32>().ok()).map(scalar),
    }
}

/// One namespace per line, `letter,name`; the index of a namespace is the
/// number of its line among those that are not empty.
fn namespaces(source: &str) -> NamespaceMap {
    let mut vw = NamespaceMap::new();
    let mut index: u32 = 0;
    for line in source.lines() {
        if line.is_empty() {
            continue;
        }
        let letter = line.split(',').next().unwrap().chars().next().unwrap();
        vw.add(letter, index);
        index += 1;
    }
    vw
}

#[test]
fn test_interaction_parsing() {
    let vw_map_string = "\nA,featureA\nB,featureB\nC,featureC\n";
    let vw = namespaces(vw_map_string);
    let mi = ModelInstance::new_empty().unwrap();

    let aa = mi.create_feature_combo_desc(&vw, &combo("A")).unwrap();
    assert_eq!(aa, FeatureComboDesc { feature_indices: vec![0], weight: scalar(1.0) });

    let aa = mi.create_feature_combo_desc(&vw, &combo("BA:1.5")).unwrap();
    assert_eq!(aa, FeatureComboDesc { feature_indices: vec![1, 0], weight: scalar(1.5) });
}

#[test]
fn test_weight_parsing() {
    let vw_map_string = "\nA,featureA:2\nB,featureB:3\n";
    // The weights that the namespace source declares play no part.
    let vw = namespaces(vw_map_string);
    let mi = ModelInstance::new_empty().unwrap();
    let aa = mi.create_feature_combo_desc(&vw, &combo("BA:1.5")).unwrap();
    assert_eq!(aa, FeatureComboDesc { feature_indices: vec![1, 0], weight: scalar(1.5) });
}

#[test]
fn namespaces_are_read_line_by_line() {
    let vw = namespaces("\nA,featureA\nB,featureB\nC,featureC\n");
    assert_eq!(
        vw.entries,
        vec![
            NamespaceEntry { letter: 'A', index: 0 },
            NamespaceEntry { letter: 'B', index: 1 },
            NamespaceEntry { letter: 'C', index: 2 },
        ]
    );
}

#[test]
fn single_letter_has_weight_one_and_one_index() {
    let vw = namespaces("A,featureA\nB,featureB\nC,featureC\n");
    let mi = ModelInstance::new_empty().unwrap();
    for (letter, index) in [("A", 0u32), ("B", 1), ("C", 2)] {
        let desc = mi.create_feature_combo_desc(&vw, &combo(letter)).unwrap();
        assert_eq!(desc.weight.to_bits(), 1.0f32.to_bits());
        assert_eq!(desc.feature_indices, vec![index]);
    }
}

#[test]
fn letters_keep_their_order_and_may_repeat() {
    let vw = namespaces("A,featureA\nB,featureB\nC,featureC\n");
    let mi = ModelInstance::new_empty().unwrap();
    let desc = mi.create_feature_combo_desc(&vw, &combo("CABAC")).unwrap();
    assert_eq!(desc.feature_indices, vec![2, 0, 1, 0, 2]);
    assert_eq!(desc.weight, scalar(1.0));
}

#[test]
fn two_delimiters_are_refused() {
    let vw = namespaces("A,featureA\nB,featureB\n");
    let mi = ModelInstance::new_empty().unwrap();
    assert_eq!(
        mi.create_feature_combo_desc(&vw, &combo("A:1:2")),
        Err(ErrorKind::MultipleWeightDelimiters)
    );
    assert_eq!(
        mi.create_feature_combo_desc(&vw, &combo("::")),
        Err(ErrorKind::MultipleWeightDelimiters)
    );
    // The delimiters are counted before anything else is looked at.
    assert_eq!(
        mi.create_feature_combo_desc(&vw, &combo("Z:x:y")),
        Err(ErrorKind::MultipleWeightDelimiters)
    );
}

#[test]
fn weight_that_is_no_number_is_refused() {
    let vw = namespaces("A,featureA\nB,featureB\n");
    let mi = ModelInstance::new_empty().unwrap();
    assert_eq!(mi.create_feature_combo_desc(&vw, &combo("A:")), Err(ErrorKind::InvalidNumber));
    assert_eq!(mi.create_feature_combo_desc(&vw, &combo("A:x")), Err(ErrorKind::InvalidNumber));
    // The weight is read before the letters are.
    assert_eq!(mi.create_feature_combo_desc(&vw, &combo("Z:x")), Err(ErrorKind::InvalidNumber));
}

#[test]
fn unknown_letter_is_named() {
    let vw = namespaces("A,featureA\nB,featureB\n");
    let mi = ModelInstance::new_empty().unwrap();
    assert_eq!(
        mi.create_feature_combo_desc(&vw, &combo("AZB")),
        Err(ErrorKind::UnknownNamespace { letter: 'Z' })
    );
    assert_eq!(
        mi.create_feature_combo_desc(&vw, &combo("AYZ:2")),
        Err(ErrorKind::UnknownNamespace { letter: 'Y' })
    );
}

#[test]
fn combination_without_letters_is_refused() {
    let vw = namespaces("A,featureA\n");
    let mi = ModelInstance::new_empty().unwrap();
    assert_eq!(mi.create_feature_combo_desc(&vw, &combo(":2.5")), Err(ErrorKind::NoNamespaces));
    assert_eq!(mi.create_feature_combo_desc(&vw, &combo("")), Err(ErrorKind::NoNamespaces));
    // The delimiters are counted and the weight is read before that.
    assert_eq!(mi.create_feature_combo_desc(&vw, &combo(":x")), Err(ErrorKind::InvalidNumber));
    assert_eq!(mi.create_feature_combo_desc(&vw, &combo(":")), Err(ErrorKind::InvalidNumber));
    assert_eq!(
        mi.create_feature_combo_desc(&vw, &combo("::")),
        Err(ErrorKind::MultipleWeightDelimiters)
    );
}

#[test]
fn what_is_read_has_one_index_for_each_letter() {
    let vw = namespaces("A,featureA\nB,featureB\nC,featureC\n");
    let mi = ModelInstance::new_empty().unwrap();
    for text in ["A", "AB", "CCC", "B:2", "ABCABC:0.5"] {
        let desc = mi.create_feature_combo_desc(&vw, &combo(text)).unwrap();
        let letters = text.split(':').next().unwrap().chars().count();
        assert!(!desc.feature_indices.is_empty());
        assert_eq!(desc.feature_indices.len(), letters);
    }
}

#[test]
fn weight_text_is_what_follows_the_one_delimiter() {
    assert_eq!(weight_text("BA:1.5"), Some("1.5".to_string()));
    assert_eq!(weight_text("BA:"), Some("".to_string()));
    assert_eq!(weight_text(":x"), Some("x".to_string()));
    assert_eq!(weight_text("BA"), None);
    assert_eq!(weight_text(""), None);
    assert_eq!(weight_text("A:1:2"), None);
    assert_eq!(weight_text("é:ü"), Some("ü".to_string()));
}

#[test]
fn transformed_namespaces_resolve_behind_those_of_the_input() {
    let vw = namespaces("A,featureA\nB,featureB\n");
    let mut mi = ModelInstance::new_empty().unwrap();
    mi.transform_namespaces.v.push(NamespaceEntry { letter: 'X', index: 1000 });
    mi.transform_namespaces.v.push(NamespaceEntry { letter: 'A', index: 2000 });
    mi.transform_namespaces.v.push(NamespaceEntry { letter: 'X', index: 3000 });
    let desc = mi.create_feature_combo_desc(&vw, &combo("XAB:0.5")).unwrap();
    assert_eq!(desc, FeatureComboDesc { feature_indices: vec![1000, 0, 1], weight: scalar(0.5) });
}

#[test]
fn weight_counts_only_behind_one_delimiter() {
    let vw = namespaces("A,featureA\nB,featureB\n");
    let mi = ModelInstance::new_empty().unwrap();
    let given = |text: &str, weight: Option<f32>| ComboArg {
        text: text.to_string(),
        weight: weight.map(scalar),
    };
    assert_eq!(
        mi.create_feature_combo_desc(&vw, &given("AB", Some(7.0))),
        Ok(FeatureComboDesc { feature_indices: vec![0, 1], weight: scalar(1.0) })
    );
    assert_eq!(
        mi.create_feature_combo_desc(&vw, &given("A:1:2", Some(7.0))),
        Err(ErrorKind::MultipleWeightDelimiters)
    );
    assert_eq!(
        mi.create_feature_combo_desc(&vw, &given("AB:7", Some(7.0))),
        Ok(FeatureComboDesc { feature_indices: vec![0, 1], weight: scalar(7.0) })
    );
    assert_eq!(
        mi.create_feature_combo_desc(&vw, &given("AB:7", None)),
        Err(ErrorKind::InvalidNumber)
    );
}
