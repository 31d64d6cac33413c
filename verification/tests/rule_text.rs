use css_cascade::{
    parse_property_declaration_list, AbsoluteLength, Display, FontSize, Importance,
    LengthPercentage, LonghandId, NoCalcLength, PropertyDeclaration, PropertyDeclarationBlock,
    PropertyDeclarationParser, StyleParseErrorKind,
};
use cssparser::{
    AtRuleParser, CowRcStr, DeclarationListParser, DeclarationParser, ParseError, Parser,
    ParserInput,
};

struct EntryParser {
    inner: PropertyDeclarationParser,
}

impl<'i> DeclarationParser<'i> for EntryParser {
    type Declaration = Importance;
    type Error = StyleParseErrorKind;

    fn parse_value<'t>(
        &mut self,
        name: CowRcStr<'i>,
        input: &mut Parser<'i, 't>,
    ) -> Result<Importance, ParseError<'i, Self::Error>> {
        self.inner
            .parse_value(name.as_ref(), input)
            .map_err(|kind| input.new_custom_error(kind))
    }
}

impl<'i> AtRuleParser<'i> for EntryParser {
    type PreludeNoBlock = ();
    type PreludeBlock = ();
    type AtRule = Importance;
    type Error = StyleParseErrorKind;
}

fn block_of(text: &str) -> (PropertyDeclarationBlock, usize) {
    let mut input = ParserInput::new(text);
    let mut tokens = Parser::new(&mut input);
    let mut accepted = Vec::new();
    let mut dropped = 0;
    let prop_parser = EntryParser {
        inner: PropertyDeclarationParser::new(),
    };
    let mut decl_iter = DeclarationListParser::new(&mut tokens, prop_parser);
    while let Some(declaration) = decl_iter.next() {
        match declaration {
            Ok(importance) => {
                accepted.push((decl_iter.parser.inner.take_declarations(), importance))
            }
            Err(_) => dropped += 1,
        }
    }
    (parse_property_declaration_list(&accepted), dropped)
}

fn font_size(px: f32) -> PropertyDeclaration {
    PropertyDeclaration::FontSize(FontSize::Length(LengthPercentage::Length(
        NoCalcLength::Absolute(AbsoluteLength::Px(px.to_bits())),
    )))
}

fn margin_left(px: f32) -> PropertyDeclaration {
    PropertyDeclaration::MarginLeft(LengthPercentage::Length(NoCalcLength::Absolute(
        AbsoluteLength::Px(px.to_bits()),
    )))
}

fn flags(block: &PropertyDeclarationBlock) -> Vec<bool> {
    block.declarations_importance().iter().collect()
}

#[test]
fn rule_text_becomes_a_block() {
    let (block, dropped) = block_of("font-size: 12px; margin-left: 4px !important");
    assert_eq!(block.declarations(), &[font_size(12.0), margin_left(4.0)][..]);
    assert_eq!(flags(&block), vec![false, true]);
    assert_eq!(dropped, 0);
}

#[test]
fn later_declaration_of_a_property_replaces_the_earlier() {
    let (block, dropped) = block_of(
        "font-size: 12px; margin-left: 10%; font-size: 16px !important; FONT-SIZE: 24px;",
    );
    assert_eq!(
        block.declarations(),
        &[
            font_size(24.0),
            PropertyDeclaration::MarginLeft(LengthPercentage::Percentage(0.1f32.to_bits())),
        ][..]
    );
    assert_eq!(flags(&block), vec![false, false]);
    assert_eq!(dropped, 0);
    assert!(block.contains(LonghandId::FontSize));
    assert!(!block.contains(LonghandId::Display));
}

#[test]
fn each_failure_drops_its_own_entry_only() {
    let (block, dropped) = block_of(
        "colour: red; font-size: 12px; font-size: huge; margin-left: 3px 4px; \
         font-size: 99px !important 1; margin-left: 7px !important; display: block; \
         12px; @media x; font-size 13px; margin-left: 8px !importan",
    );
    assert_eq!(
        block.declarations(),
        &[
            font_size(12.0),
            margin_left(7.0),
            PropertyDeclaration::Display(Display::Block),
        ][..]
    );
    assert_eq!(flags(&block), vec![false, true, false]);
    assert_eq!(dropped, 8);
}

#[test]
fn a_dropped_entry_leaves_nothing_for_the_next() {
    let (block, dropped) = block_of("font-size: 99px !important 1; display: none !important");
    assert_eq!(
        block.declarations(),
        &[PropertyDeclaration::Display(Display::Hidden)][..]
    );
    assert_eq!(flags(&block), vec![true]);
    assert_eq!(dropped, 1);
    assert!(!block.contains(LonghandId::FontSize));
}

#[test]
fn display_is_declared_from_rule_text() {
    let (block, dropped) = block_of(
        "display: block; display: flex; DISPLAY: Inline !important; display: ; margin: 1px;",
    );
    assert_eq!(
        block.declarations(),
        &[PropertyDeclaration::Display(Display::Inline)][..]
    );
    assert_eq!(flags(&block), vec![true]);
    assert_eq!(dropped, 3);
    assert!(block.contains(LonghandId::Display));
}

#[test]
fn empty_rule_text_makes_an_empty_block() {
    let (block, dropped) = block_of("  /* nothing */ ;; ");
    assert!(block.declarations().is_empty());
    assert_eq!(dropped, 0);
}
