use luna::format::{
    FormatDescription, IndentationMode, OperatorSpacing, SourceFormatSettings, SourceItem,
    SourceObject,
};

fn settings(indentation: IndentationMode) -> SourceFormatSettings {
    SourceFormatSettings { indentation, operator_spacing: OperatorSpacing::default() }
}

#[test]
fn default_settings() {
    let s = SourceFormatSettings::default();
    assert_eq!(s.indentation, IndentationMode::Spaces(4));
    assert!(!s.operator_spacing.negate);
    assert!(!s.operator_spacing.length);
    assert!(s.operator_spacing.add && s.operator_spacing.union && s.operator_spacing.less_than_or_equal);
}

#[test]
fn text_indentation() {
    let item = SourceItem::text("x");
    assert_eq!(item.format(&settings(IndentationMode::Spaces(2)), 3), "      x");
    assert_eq!(item.format(&settings(IndentationMode::Tabs(1)), 2), "\t\tx");
    assert_eq!(item.format(&settings(IndentationMode::Disabled), 5), "x");
    assert_eq!(item.format(&settings(IndentationMode::Spaces(0)), 5), "x");
    assert_eq!(item.format(&SourceFormatSettings::default(), 0), "x");
}

#[test]
fn block_layout() {
    let plain = FormatDescription { indented: false, separated: false };
    let line = FormatDescription { indented: true, separated: true };
    let block = SourceItem::block(vec![
        SourceObject::new(SourceItem::text("a"), plain),
        SourceObject::new(SourceItem::text("b"), plain),
        SourceObject::new(SourceItem::text("c"), line),
        SourceObject::new(SourceItem::text("d"), plain),
    ]);
    let s = settings(IndentationMode::Spaces(2));
    assert_eq!(block.format(&s, 0), "ab  c\nd\n");
    assert_eq!(block.format(&s, 1), "    a  b    c\n  d\n");
}
