use std::cmp::Ordering;

use css_cascade::{
    AbsoluteLength, CascadeOrigin, ContextualPropertyDeclaration, CssOrigin, Display, FontSize,
    LengthPercentage, NoCalcLength, PropertyDeclaration, Specificity, StylesheetOrigin,
};
use cssparser::SourceLocation;

fn font_size_px(px: f32) -> PropertyDeclaration {
    PropertyDeclaration::FontSize(FontSize::Length(LengthPercentage::Length(
        NoCalcLength::Absolute(AbsoluteLength::Px(px.to_bits())),
    )))
}

fn sheet(cascade_origin: CascadeOrigin) -> CssOrigin {
    CssOrigin::Sheet(StylesheetOrigin {
        sheet_name: "file.css".to_owned(),
        cascade_origin,
    })
}

fn contextual(
    inner_decl: PropertyDeclaration,
    important: bool,
    origin: CssOrigin,
    specificity: u32,
) -> ContextualPropertyDeclaration {
    ContextualPropertyDeclaration {
        inner_decl,
        important,
        origin,
        source_location: None,
        specificity: Specificity::new(specificity),
    }
}

#[test]
fn decl_cmp_specificity() {
    let zero_spec = ContextualPropertyDeclaration {
        inner_decl: PropertyDeclaration::FontSize(FontSize::Length(LengthPercentage::Length(
            NoCalcLength::Absolute(AbsoluteLength::Px(12.0f32.to_bits())),
        ))),
        important: true,
        origin: CssOrigin::Inline,
        source_location: None,
        specificity: Specificity::new(0),
    };
    let mut one_thousand_spec = zero_spec.clone();
    one_thousand_spec.specificity = Specificity::new(1000);
    let mut two_thousand_spec = zero_spec.clone();
    two_thousand_spec.specificity = Specificity::new(2049);

    assert!(two_thousand_spec > one_thousand_spec);
    assert!(two_thousand_spec > zero_spec);
    assert!(one_thousand_spec > zero_spec);

    assert_eq!(
        two_thousand_spec.cmp(&two_thousand_spec.clone()),
        Ordering::Equal
    );
    assert_eq!(
        one_thousand_spec.cmp(&one_thousand_spec.clone()),
        Ordering::Equal
    );
    assert_eq!(zero_spec.cmp(&zero_spec.clone()), Ordering::Equal);
}

#[test]
fn decl_cmp_importance_ordering() {
    let imp = ContextualPropertyDeclaration {
        inner_decl: PropertyDeclaration::FontSize(FontSize::Length(LengthPercentage::Length(
            NoCalcLength::Absolute(AbsoluteLength::Px(12.0f32.to_bits())),
        ))),
        important: true,
        origin: CssOrigin::Inline,
        source_location: None,
        specificity: Specificity::new(0),
    };
    let mut not_imp = imp.clone();
    not_imp.important = false;

    assert!(imp > not_imp);
    assert!(not_imp < imp);
    assert_eq!(imp.cmp(&imp.clone()), Ordering::Equal);
    assert_eq!(not_imp.cmp(&not_imp.clone()), Ordering::Equal);
}

#[test]
fn decl_cmp_both_important_sheet_origin() {
    let ua_decl = ContextualPropertyDeclaration {
        inner_decl: PropertyDeclaration::FontSize(FontSize::Length(LengthPercentage::Length(
            NoCalcLength::Absolute(AbsoluteLength::Px(12.0f32.to_bits())),
        ))),
        important: true,
        origin: CssOrigin::Sheet(StylesheetOrigin {
            sheet_name: "file.css".to_owned(),
            cascade_origin: CascadeOrigin::UserAgent,
        }),
        source_location: None,
        specificity: Specificity::new(0),
    };
    let mut user_decl = ua_decl.clone();
    let mut author_decl = ua_decl.clone();
    user_decl.origin = CssOrigin::Sheet(StylesheetOrigin {
        sheet_name: "file.css".to_owned(),
        cascade_origin: CascadeOrigin::User,
    });
    author_decl.origin = CssOrigin::Sheet(StylesheetOrigin {
        sheet_name: "file.css".to_owned(),
        cascade_origin: CascadeOrigin::Author,
    });

    assert!(ua_decl > user_decl);
    assert!(ua_decl > author_decl);

    assert!(user_decl > author_decl);

    assert_eq!(ua_decl.cmp(&ua_decl.clone()), Ordering::Equal);
    assert_eq!(user_decl.cmp(&user_decl.clone()), Ordering::Equal);
    assert_eq!(author_decl.cmp(&author_decl.clone()), Ordering::Equal);
}

#[test]
fn decl_cmp_both_unimportant_sheet_origin() {
    let ua_decl = ContextualPropertyDeclaration {
        inner_decl: PropertyDeclaration::FontSize(FontSize::Length(LengthPercentage::Length(
            NoCalcLength::Absolute(AbsoluteLength::Px(12.0f32.to_bits())),
        ))),
        important: false,
        origin: CssOrigin::Sheet(StylesheetOrigin {
            sheet_name: "file.css".to_owned(),
            cascade_origin: CascadeOrigin::UserAgent,
        }),
        source_location: None,
        specificity: Specificity::new(0),
    };
    let mut user_decl = ua_decl.clone();
    let mut author_decl = ua_decl.clone();
    user_decl.origin = CssOrigin::Sheet(StylesheetOrigin {
        sheet_name: "file.css".to_owned(),
        cascade_origin: CascadeOrigin::User,
    });
    author_decl.origin = CssOrigin::Sheet(StylesheetOrigin {
        sheet_name: "file.css".to_owned(),
        cascade_origin: CascadeOrigin::Author,
    });

    assert!(author_decl > user_decl);
    assert!(author_decl > ua_decl);

    assert!(user_decl > ua_decl);

    assert_eq!(ua_decl.cmp(&ua_decl.clone()), Ordering::Equal);
    assert_eq!(user_decl.cmp(&user_decl.clone()), Ordering::Equal);
    assert_eq!(author_decl.cmp(&author_decl.clone()), Ordering::Equal);
}

#[test]
fn decl_cmp_diff_prop_types_are_equal() {
    let font_size = ContextualPropertyDeclaration {
        inner_decl: PropertyDeclaration::FontSize(FontSize::Length(LengthPercentage::Length(
            NoCalcLength::Absolute(AbsoluteLength::Px(12.0f32.to_bits())),
        ))),
        important: false,
        origin: CssOrigin::Inline,
        source_location: None,
        specificity: Specificity::new(0),
    };
    let display = ContextualPropertyDeclaration {
        inner_decl: PropertyDeclaration::Display(Display::Block),
        important: false,
        origin: CssOrigin::Inline,
        source_location: None,
        specificity: Specificity::new(0),
    };
    assert_eq!(font_size.cmp(&display), Ordering::Equal);
}

#[test]
fn important_wins_whatever_origin_and_specificity() {
    let origins = [
        CssOrigin::Inline,
        CssOrigin::Embedded,
        sheet(CascadeOrigin::UserAgent),
        sheet(CascadeOrigin::User),
        sheet(CascadeOrigin::Author),
    ];
    for important_origin in origins.iter() {
        for normal_origin in origins.iter() {
            for (high, low) in [(0u32, 4_000_000_000u32), (7, 7), (4_000_000_000, 0)] {
                let important = contextual(font_size_px(12.0), true, important_origin.clone(), high);
                let normal = contextual(font_size_px(12.0), false, normal_origin.clone(), low);
                assert_eq!(important.cmp(&normal), Ordering::Greater);
                assert_eq!(normal.cmp(&important), Ordering::Less);
                assert!(important.beats(&normal));
                assert!(!normal.beats(&important));
            }
        }
    }
}

#[test]
fn inline_and_author_sheet_are_equal_when_important() {
    let inline = contextual(font_size_px(12.0), true, CssOrigin::Inline, 0);
    let author = contextual(font_size_px(12.0), true, sheet(CascadeOrigin::Author), 0);
    assert_eq!(inline.cmp(&author), Ordering::Equal);
    assert_eq!(author.cmp(&inline), Ordering::Equal);
}

#[test]
fn inline_and_embedded_rank_with_the_author() {
    for important in [true, false] {
        let inline = contextual(font_size_px(12.0), important, CssOrigin::Inline, 3);
        let embedded = contextual(font_size_px(12.0), important, CssOrigin::Embedded, 3);
        let author = contextual(font_size_px(12.0), important, sheet(CascadeOrigin::Author), 3);
        assert_eq!(inline.cmp(&embedded), Ordering::Equal);
        assert_eq!(embedded.cmp(&inline), Ordering::Equal);
        assert_eq!(inline.cmp(&inline.clone()), Ordering::Equal);
        assert_eq!(embedded.cmp(&embedded.clone()), Ordering::Equal);
        assert_eq!(embedded.cmp(&author), Ordering::Equal);
        assert_eq!(author.cmp(&embedded), Ordering::Equal);
        assert_eq!(inline.cmp(&author), Ordering::Equal);
    }
}

#[test]
fn inline_against_user_agent_and_user_sheets() {
    for origin in [CssOrigin::Inline, CssOrigin::Embedded] {
        for other in [CascadeOrigin::UserAgent, CascadeOrigin::User] {
            let important = contextual(font_size_px(12.0), true, origin.clone(), 0);
            let important_sheet = contextual(font_size_px(12.0), true, sheet(other), 0);
            assert_eq!(important.cmp(&important_sheet), Ordering::Less);
            assert_eq!(important_sheet.cmp(&important), Ordering::Greater);

            let normal = contextual(font_size_px(12.0), false, origin.clone(), 0);
            let normal_sheet = contextual(font_size_px(12.0), false, sheet(other), 0);
            assert_eq!(normal.cmp(&normal_sheet), Ordering::Greater);
            assert_eq!(normal_sheet.cmp(&normal), Ordering::Less);
        }
    }
}

#[test]
fn important_origins_form_a_strict_chain() {
    let ua = contextual(font_size_px(12.0), true, sheet(CascadeOrigin::UserAgent), 0);
    let user = contextual(font_size_px(12.0), true, sheet(CascadeOrigin::User), 0);
    let author = contextual(font_size_px(12.0), true, sheet(CascadeOrigin::Author), 0);
    assert_eq!(ua.cmp(&user), Ordering::Greater);
    assert_eq!(user.cmp(&author), Ordering::Greater);
    assert_eq!(ua.cmp(&author), Ordering::Greater);
    assert_eq!(user.cmp(&ua), Ordering::Less);
    assert_eq!(author.cmp(&user), Ordering::Less);
    assert_eq!(author.cmp(&ua), Ordering::Less);
}

#[test]
fn normal_origins_form_the_reverse_chain() {
    let ua = contextual(font_size_px(12.0), false, sheet(CascadeOrigin::UserAgent), 0);
    let user = contextual(font_size_px(12.0), false, sheet(CascadeOrigin::User), 0);
    let author = contextual(font_size_px(12.0), false, sheet(CascadeOrigin::Author), 0);
    assert_eq!(author.cmp(&user), Ordering::Greater);
    assert_eq!(user.cmp(&ua), Ordering::Greater);
    assert_eq!(author.cmp(&ua), Ordering::Greater);
    assert_eq!(user.cmp(&author), Ordering::Less);
    assert_eq!(ua.cmp(&user), Ordering::Less);
    assert_eq!(ua.cmp(&author), Ordering::Less);
}

#[test]
fn origin_counts_before_specificity() {
    let ua = contextual(font_size_px(12.0), true, sheet(CascadeOrigin::UserAgent), 0);
    let author = contextual(font_size_px(12.0), true, sheet(CascadeOrigin::Author), 9000);
    assert_eq!(ua.cmp(&author), Ordering::Greater);
    let ua = contextual(font_size_px(12.0), false, sheet(CascadeOrigin::UserAgent), 9000);
    let author = contextual(font_size_px(12.0), false, sheet(CascadeOrigin::Author), 0);
    assert_eq!(ua.cmp(&author), Ordering::Less);
}

#[test]
fn specificity_breaks_ties_within_one_origin_class() {
    for important in [true, false] {
        let low = contextual(font_size_px(12.0), important, CssOrigin::Embedded, 10);
        let high = contextual(font_size_px(12.0), important, sheet(CascadeOrigin::Author), 11);
        let same = contextual(font_size_px(16.0), important, CssOrigin::Inline, 11);
        assert_eq!(high.cmp(&low), Ordering::Greater);
        assert_eq!(low.cmp(&high), Ordering::Less);
        assert_eq!(high.cmp(&same), Ordering::Equal);
        assert!(high > low);
        assert!(low < high);
        assert!(!(high > same));
        assert!(!(high < same));
    }
}

#[test]
fn different_properties_are_never_ranked() {
    let font_size = contextual(font_size_px(12.0), true, sheet(CascadeOrigin::UserAgent), 500);
    let display = contextual(
        PropertyDeclaration::Display(Display::Inline),
        false,
        sheet(CascadeOrigin::Author),
        0,
    );
    let margin = contextual(
        PropertyDeclaration::MarginLeft(LengthPercentage::Percentage(0.5f32.to_bits())),
        false,
        CssOrigin::Inline,
        1,
    );
    assert_eq!(font_size.cmp(&display), Ordering::Equal);
    assert_eq!(display.cmp(&font_size), Ordering::Equal);
    assert_eq!(font_size.cmp(&margin), Ordering::Equal);
    assert_eq!(margin.cmp(&display), Ordering::Equal);
    assert_eq!(font_size.partial_cmp(&display), Some(Ordering::Equal));
    assert!(!font_size.beats(&display));
}

#[test]
fn partial_cmp_agrees_with_cmp() {
    let a = contextual(font_size_px(12.0), true, CssOrigin::Inline, 1);
    let b = contextual(font_size_px(12.0), false, CssOrigin::Inline, 2);
    assert_eq!(a.partial_cmp(&b), Some(Ordering::Greater));
    assert_eq!(b.partial_cmp(&a), Some(Ordering::Less));
    assert_eq!(a.partial_cmp(&a.clone()), Some(Ordering::Equal));
}

#[test]
fn value_and_source_location_do_not_rank() {
    let mut a = contextual(font_size_px(12.0), false, CssOrigin::Inline, 4);
    let mut b = contextual(font_size_px(96.0), false, CssOrigin::Inline, 4);
    a.source_location = Some(SourceLocation { line: 1, column: 1 });
    b.source_location = Some(SourceLocation { line: 40, column: 7 });
    assert_eq!(a.cmp(&b), Ordering::Equal);
    assert_eq!(b.cmp(&a), Ordering::Equal);
    assert!(a == b);
    let copy = a.clone();
    assert_eq!(copy.source_location, Some(SourceLocation { line: 1, column: 1 }));
    assert_eq!(copy.inner_decl, font_size_px(12.0));
}

#[test]
fn equality_is_same_property_and_same_origin() {
    let a = contextual(font_size_px(12.0), true, sheet(CascadeOrigin::User), 4);
    let b = contextual(font_size_px(20.0), false, sheet(CascadeOrigin::User), 9);
    assert!(a == b);
    let other_sheet = contextual(
        font_size_px(12.0),
        true,
        CssOrigin::Sheet(StylesheetOrigin {
            sheet_name: "other.css".to_owned(),
            cascade_origin: CascadeOrigin::User,
        }),
        4,
    );
    assert!(a != other_sheet);
    let other_origin = contextual(font_size_px(12.0), true, sheet(CascadeOrigin::Author), 4);
    assert!(a != other_origin);
    let inline = contextual(font_size_px(12.0), true, CssOrigin::Inline, 4);
    let embedded = contextual(font_size_px(12.0), true, CssOrigin::Embedded, 4);
    assert!(inline != embedded);
    assert!(inline == inline.clone());
    assert!(inline != other_origin);
    let display = contextual(PropertyDeclaration::Display(Display::Block), true, CssOrigin::Inline, 4);
    assert!(inline != display);
}

#[test]
fn specificity_keeps_its_number() {
    assert_eq!(Specificity::new(2049).to_value(), 2049);
    assert_eq!(Specificity::new(0).to_value(), 0);
    assert!(Specificity::new(1) < Specificity::new(2));
}
