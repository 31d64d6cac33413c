use css_cascade::{
    AbsoluteLength, CascadeOrigin, ContextualPropertyDeclaration, ContextualPropertyDeclarations,
    CssOrigin, Display, FontSize, LengthPercentage, LonghandId, NoCalcLength, PropertyDeclaration,
    Specificity, StylesheetOrigin,
};

fn font_size(px: f32) -> PropertyDeclaration {
    PropertyDeclaration::FontSize(FontSize::Length(LengthPercentage::Length(
        NoCalcLength::Absolute(AbsoluteLength::Px(px.to_bits())),
    )))
}

fn margin_left(px: f32) -> PropertyDeclaration {
    PropertyDeclaration::MarginLeft(LengthPercentage::Length(NoCalcLength::Absolute(
        AbsoluteLength::Px(px.to_bits()),
    )))
}

fn sheet(cascade_origin: CascadeOrigin) -> CssOrigin {
    CssOrigin::Sheet(StylesheetOrigin {
        sheet_name: "file.css".to_owned(),
        cascade_origin,
    })
}

fn contextual(
    inner_decl: PropertyDeclaration,
    important: bool,
    origin: CssOrigin,
    specificity: u32,
) -> ContextualPropertyDeclaration {
    ContextualPropertyDeclaration {
        inner_decl,
        important,
        origin,
        source_location: None,
        specificity: Specificity::new(specificity),
    }
}

fn values(collection: &ContextualPropertyDeclarations) -> Vec<PropertyDeclaration> {
    collection
        .declarations()
        .iter()
        .map(|decl| decl.inner_decl)
        .collect()
}

#[test]
fn contains_is_false_before_and_true_after() {
    for important in [true, false] {
        for origin in [
            CssOrigin::Inline,
            CssOrigin::Embedded,
            sheet(CascadeOrigin::UserAgent),
            sheet(CascadeOrigin::User),
            sheet(CascadeOrigin::Author),
        ] {
            let mut collection = ContextualPropertyDeclarations::new();
            assert!(!collection.contains(LonghandId::FontSize));
            collection.add(contextual(
                PropertyDeclaration::Display(Display::Block),
                important,
                origin.clone(),
                0,
            ));
            assert!(!collection.contains(LonghandId::FontSize));
            assert!(collection.contains(LonghandId::Display));
            collection.add(contextual(font_size(12.0), important, origin, 0));
            assert!(collection.contains(LonghandId::FontSize));
            assert!(collection.contains(LonghandId::Display));
            assert!(!collection.contains(LonghandId::MarginLeft));
        }
    }
}

#[test]
fn add_appends_without_dedup() {
    let mut collection = ContextualPropertyDeclarations::new();
    assert!(collection.declarations().is_empty());
    collection.add(contextual(font_size(12.0), false, CssOrigin::Inline, 0));
    collection.add(contextual(font_size(16.0), false, CssOrigin::Inline, 0));
    collection.add(contextual(font_size(12.0), false, CssOrigin::Inline, 0));
    assert_eq!(
        values(&collection),
        vec![font_size(12.0), font_size(16.0), font_size(12.0)]
    );
}

#[test]
fn sort_puts_the_winner_of_one_property_last() {
    let mut collection = ContextualPropertyDeclarations::new();
    collection.add(contextual(font_size(1.0), true, sheet(CascadeOrigin::Author), 0));
    collection.add(contextual(font_size(2.0), false, sheet(CascadeOrigin::Author), 50));
    collection.add(contextual(font_size(3.0), true, sheet(CascadeOrigin::UserAgent), 0));
    collection.add(contextual(font_size(4.0), false, sheet(CascadeOrigin::UserAgent), 900));
    collection.add(contextual(font_size(5.0), true, sheet(CascadeOrigin::User), 7));
    collection.add(contextual(font_size(6.0), false, CssOrigin::Inline, 10));
    collection.add(contextual(font_size(7.0), true, CssOrigin::Embedded, 1));
    collection.sort();
    assert_eq!(
        values(&collection),
        vec![
            font_size(4.0),
            font_size(6.0),
            font_size(2.0),
            font_size(1.0),
            font_size(7.0),
            font_size(5.0),
            font_size(3.0),
        ]
    );
}

#[test]
fn sort_is_stable_for_equal_declarations() {
    let mut collection = ContextualPropertyDeclarations::new();
    collection.add(contextual(font_size(1.0), false, CssOrigin::Inline, 5));
    collection.add(contextual(font_size(2.0), false, sheet(CascadeOrigin::Author), 5));
    collection.add(contextual(font_size(3.0), false, CssOrigin::Embedded, 5));
    collection.add(contextual(font_size(4.0), false, CssOrigin::Inline, 4));
    collection.sort();
    assert_eq!(
        values(&collection),
        vec![font_size(4.0), font_size(1.0), font_size(2.0), font_size(3.0)]
    );
}

#[test]
fn sort_orders_each_property_in_a_mixed_collection() {
    let mut collection = ContextualPropertyDeclarations::new();
    collection.add(contextual(font_size(1.0), true, CssOrigin::Inline, 0));
    collection.add(contextual(PropertyDeclaration::Display(Display::Block), false, CssOrigin::Inline, 0));
    collection.add(contextual(font_size(2.0), false, CssOrigin::Inline, 0));
    collection.add(contextual(margin_left(8.0), true, sheet(CascadeOrigin::User), 3));
    collection.add(contextual(margin_left(9.0), true, sheet(CascadeOrigin::User), 2));
    collection.add(contextual(PropertyDeclaration::Display(Display::Inline), false, CssOrigin::Inline, 0));
    collection.sort();
    assert_eq!(
        values(&collection),
        vec![
            font_size(2.0),
            font_size(1.0),
            PropertyDeclaration::Display(Display::Block),
            margin_left(9.0),
            margin_left(8.0),
            PropertyDeclaration::Display(Display::Inline),
        ]
    );
    let sorted = collection.declarations();
    for later in 0..sorted.len() {
        for earlier in 0..later {
            assert!(!sorted[earlier].beats(&sorted[later]));
        }
    }
    assert!(collection.contains(LonghandId::FontSize));
    assert!(collection.contains(LonghandId::Display));
    assert!(collection.contains(LonghandId::MarginLeft));
}

#[test]
fn sort_leaves_a_sorted_collection_alone() {
    let mut collection = ContextualPropertyDeclarations::new();
    collection.add(contextual(font_size(1.0), false, CssOrigin::Inline, 0));
    collection.add(contextual(PropertyDeclaration::Display(Display::Block), true, CssOrigin::Inline, 0));
    collection.add(contextual(font_size(2.0), false, CssOrigin::Inline, 1));
    collection.add(contextual(font_size(3.0), true, CssOrigin::Inline, 0));
    let before = values(&collection);
    collection.sort();
    assert_eq!(values(&collection), before);
    collection.sort();
    assert_eq!(values(&collection), before);
}

#[test]
fn sort_of_empty_and_single() {
    let mut collection = ContextualPropertyDeclarations::new();
    collection.sort();
    assert!(collection.declarations().is_empty());
    collection.add(contextual(font_size(1.0), false, CssOrigin::Inline, 0));
    collection.sort();
    assert_eq!(values(&collection), vec![font_size(1.0)]);
}

#[test]
fn clone_of_a_collection_is_independent() {
    let mut collection = ContextualPropertyDeclarations::new();
    collection.add(contextual(font_size(2.0), true, sheet(CascadeOrigin::User), 0));
    collection.add(contextual(font_size(1.0), false, CssOrigin::Inline, 0));
    let mut copy = collection.clone();
    copy.sort();
    copy.add(contextual(margin_left(1.0), false, CssOrigin::Inline, 0));
    assert_eq!(values(&collection), vec![font_size(2.0), font_size(1.0)]);
    assert_eq!(
        values(&copy),
        vec![font_size(1.0), font_size(2.0), margin_left(1.0)]
    );
    assert!(!collection.contains(LonghandId::MarginLeft));
    assert!(copy.contains(LonghandId::MarginLeft));
    assert!(copy.contains(LonghandId::FontSize));
    assert_eq!(copy.declarations()[1].origin, sheet(CascadeOrigin::User));
}
