//! The jals formatter configuration the importers lower to.
//!
//! A curated common vocabulary, grouped in sections. The defaults here are the library's own
//! starting point, and they already hold the Java-idiomatic floor (LF line endings, switch arms
//! never forced into braces, import groups never wrapped, no separate code-block budget): every
//! importer lowers its native values onto `Config::default()`.

use vstd::prelude::*;

verus! {
/// What an indentation level is made of.
#[derive(Debug, Clone, Copy, PartialEq, Eq, Structural)]
pub enum IndentStyle {
    /// Spaces.
    Space,
    /// Tab characters.
    Tab,
    /// Tabs to the last full tab stop, spaces for the remainder.
    Mixed,
}

/// The line terminator written between lines.
#[derive(Debug, Clone, Copy, PartialEq, Eq, Structural)]
pub enum LineEnding {
    /// `\n`.
    Lf,
    /// `\r\n`.
    Crlf,
    /// Whatever the host platform uses.
    Native,
}

/// Where an opening brace goes.
#[derive(Debug, Clone, Copy, PartialEq, Eq, Structural)]
pub enum BraceStyle {
    /// At the end of the header line (K&R).
    SameLine,
    /// On a line of its own (Allman).
    NextLine,
    /// On a line of its own, indented one level, with the body (Whitesmiths).
    NextLineShifted,
    /// On a line of its own, indented one level, the body not (GNU).
    NextLineShiftedBraces,
    /// On a line of its own only when the header wrapped.
    NextLineOnWrap,
}

/// When a braced body may stay on one line.
#[derive(Debug, Clone, Copy, PartialEq, Eq, Structural)]
pub enum KeepOnOneLine {
    /// Always expanded.
    Never,
    /// Only when empty.
    IfEmpty,
    /// When empty or holding one item.
    IfSingleItem,
    /// Whenever it fits.
    Always,
    /// As the author wrote it.
    Preserve,
}

/// Where a delimited list's parentheses go when it wraps.
#[derive(Debug, Clone, Copy, PartialEq, Eq, Structural)]
pub enum ParenPositions {
    /// Both share a line with the adjacent item.
    CommonLines,
    /// Each on a line of its own when the list wraps.
    SeparateLinesIfWrapped,
    /// Each on a line of its own unless the list is empty.
    SeparateLinesIfNotEmpty,
    /// Each on a line of its own.
    SeparateLines,
    /// As the author placed them.
    Preserve,
}

/// When a construct's items wrap, and how.
#[derive(Debug, Clone, Copy, PartialEq, Eq, Structural)]
pub enum WrapPolicy {
    /// Never wrap.
    Never,
    /// Fill as many items per line as fit.
    IfLong,
    /// One item per line once the construct does not fit.
    IfLongPerItem,
    /// Always one item per line.
    AlwaysPerItem,
}

/// When braces are added around a braceless body.
#[derive(Debug, Clone, Copy, PartialEq, Eq, Structural)]
pub enum ForceBraces {
    /// Never.
    Never,
    /// When the body spans lines.
    IfMultiline,
    /// Always.
    Always,
}

/// How import declarations are ordered.
#[derive(Debug, Clone, Copy, PartialEq, Eq, Structural)]
pub enum ImportOrder {
    /// As written.
    Preserve,
    /// Sorted into the configured groups.
    Group,
}

/// Which declarations keep argument-less annotations on their own line.
#[derive(Debug, Clone, Copy, PartialEq, Eq, Structural)]
pub enum InlineAnnotations {
    /// None: every annotation takes a line of its own.
    Never,
    /// Local variables only.
    Locals,
    /// Every variable declaration.
    Declarations,
}

/// How `<p>` tags are written in reflowed Javadoc.
#[derive(Debug, Clone, Copy, PartialEq, Eq, Structural)]
pub enum ParagraphTags {
    /// Glued to the first word of the paragraph they open.
    Leading,
    /// Where the author wrote them, each on a line of its own.
    Authored,
    /// Inferred at blank lines, each on a line of its own.
    OwnLine,
}

/// How block-tag descriptions are aligned.
#[derive(Debug, Clone, Copy, PartialEq, Eq, Structural)]
pub enum TagAlignment {
    /// Not aligned.
    Unaligned,
    /// All under one column.
    All,
    /// Each run of same-named tags under its own column.
    Grouped,
}

/// How many blank lines separate a member that carries Javadoc from its neighbours.
#[derive(Debug, Clone, Copy, PartialEq, Eq, Structural)]
pub enum DocumentedMember {
    /// As many as the author wrote.
    Preserve,
    /// At least this many.
    AtLeast(usize),
}

/// `[layout]`: indentation, width and the file-level rules.
#[derive(Debug, Clone, PartialEq, Eq)]
pub struct Layout {
    /// What an indentation level is made of.
    pub indent_style: IndentStyle,
    /// Columns per indentation level.
    pub indent_width: usize,
    /// Columns a tab character advances to.
    pub tab_width: usize,
    /// Columns a continuation line is indented by; `None` for twice the level width.
    pub continuation_indent: Option<usize>,
    /// The column limit.
    pub max_width: usize,
    /// The line terminator.
    pub line_ending: LineEnding,
    /// End the file with a newline.
    pub insert_final_newline: bool,
    /// Drop trailing whitespace.
    pub trim_trailing_whitespace: bool,
    /// Indent blank lines to the surrounding level.
    pub indent_empty_lines: bool,
    /// Indent `case` labels within `switch`.
    pub indent_switch_labels: bool,
    /// Indent statements within a `case`.
    pub indent_switch_case_body: bool,
    /// Indent members within a type body.
    pub indent_type_members: bool,
    /// Columns a statement label is indented by.
    pub label_indent: usize,
    /// Honor formatter on/off comments.
    pub formatter_tags: bool,
    /// The comment text that disables formatting.
    pub formatter_off_tag: String,
    /// The comment text that re-enables it.
    pub formatter_on_tag: String,
}

impl Layout {
    /// Whether every field holds the library default.
    pub open spec fn is_default(&self) -> bool {
        &&& self.indent_style == IndentStyle::Space
        &&& self.indent_width == 4
        &&& self.tab_width == 4
        &&& self.continuation_indent is None
        &&& self.max_width == 100
        &&& self.line_ending == LineEnding::Lf
        &&& self.insert_final_newline == true
        &&& self.trim_trailing_whitespace == true
        &&& self.indent_empty_lines == false
        &&& self.indent_switch_labels == true
        &&& self.indent_switch_case_body == true
        &&& self.indent_type_members == true
        &&& self.label_indent == 0
        &&& self.formatter_tags == false
        &&& self.formatter_off_tag@ == "@formatter:off"@
        &&& self.formatter_on_tag@ == "@formatter:on"@
    }
}

impl Default for Layout {
    fn default() -> (r: Self)
        ensures
            r.is_default(),
    {
        Layout {
            indent_style: IndentStyle::Space,
            indent_width: 4,
            tab_width: 4,
            continuation_indent: None,
            max_width: 100,
            line_ending: LineEnding::Lf,
            insert_final_newline: true,
            trim_trailing_whitespace: true,
            indent_empty_lines: false,
            indent_switch_labels: true,
            indent_switch_case_body: true,
            indent_type_members: true,
            label_indent: 0,
            formatter_tags: false,
            formatter_off_tag: crate::strs::string_of(&crate::strs::chars_of("@formatter:off")),
            formatter_on_tag: crate::strs::string_of(&crate::strs::chars_of("@formatter:on")),
        }
    }
}

/// `[blank-lines]`: how many blank lines go where.
#[derive(Debug, Clone, Copy, PartialEq, Eq)]
pub struct BlankLines {
    /// Blank lines: `max-in-code`.
    pub max_in_code: usize,
    /// Blank lines: `max-in-declarations`.
    pub max_in_declarations: usize,
    /// Blank lines: `max-before-closing-brace`.
    pub max_before_closing_brace: usize,
    /// Blank lines: `before-package`.
    pub before_package: usize,
    /// Blank lines: `after-package`.
    pub after_package: usize,
    /// Blank lines: `before-imports`.
    pub before_imports: usize,
    /// Blank lines: `after-imports`.
    pub after_imports: usize,
    /// Blank lines: `between-import-groups`.
    pub between_import_groups: usize,
    /// Blank lines: `around-type`.
    pub around_type: usize,
    /// Blank lines: `at-type-body-start`.
    pub at_type_body_start: usize,
    /// Blank lines: `at-type-body-end`.
    pub at_type_body_end: usize,
    /// Blank lines: `around-field`.
    pub around_field: usize,
    /// Blank lines: `around-method`.
    pub around_method: usize,
    /// Blank lines: `around-field-in-interface`.
    pub around_field_in_interface: usize,
    /// Blank lines: `around-method-in-interface`.
    pub around_method_in_interface: usize,
    /// Blank lines: `around-initializer`.
    pub around_initializer: usize,
    /// Blank lines: `before-method-body`.
    pub before_method_body: usize,
    /// Blank lines: `at-block-start`.
    pub at_block_start: usize,
    /// Blank lines: `at-block-end`.
    pub at_block_end: usize,
    /// Blank lines: `between-switch-groups`.
    pub between_switch_groups: usize,
    /// Blank lines around a member that carries Javadoc.
    pub around_documented_member: DocumentedMember,
}

impl BlankLines {
    /// Whether every field holds the library default.
    pub open spec fn is_default(&self) -> bool {
        &&& self.max_in_code == 1
        &&& self.max_in_declarations == 1
        &&& self.max_before_closing_brace == 0
        &&& self.before_package == 0
        &&& self.after_package == 1
        &&& self.before_imports == 1
        &&& self.after_imports == 1
        &&& self.between_import_groups == 1
        &&& self.around_type == 1
        &&& self.at_type_body_start == 0
        &&& self.at_type_body_end == 0
        &&& self.around_field == 0
        &&& self.around_method == 1
        &&& self.around_field_in_interface == 0
        &&& self.around_method_in_interface == 1
        &&& self.around_initializer == 1
        &&& self.before_method_body == 0
        &&& self.at_block_start == 0
        &&& self.at_block_end == 0
        &&& self.between_switch_groups == 0
        &&& self.around_documented_member == DocumentedMember::AtLeast(1)
    }
}

impl Default for BlankLines {
    fn default() -> (r: Self)
        ensures
            r.is_default(),
    {
        BlankLines {
            max_in_code: 1,
            max_in_declarations: 1,
            max_before_closing_brace: 0,
            before_package: 0,
            after_package: 1,
            before_imports: 1,
            after_imports: 1,
            between_import_groups: 1,
            around_type: 1,
            at_type_body_start: 0,
            at_type_body_end: 0,
            around_field: 0,
            around_method: 1,
            around_field_in_interface: 0,
            around_method_in_interface: 1,
            around_initializer: 1,
            before_method_body: 0,
            at_block_start: 0,
            at_block_end: 0,
            between_switch_groups: 0,
            around_documented_member: DocumentedMember::AtLeast(1),
        }
    }
}

/// `[braces]`: brace placement, brace forcing, and one-line bodies.
#[derive(Debug, Clone, Copy, PartialEq, Eq)]
pub struct Braces {
    /// `type-declaration`.
    pub type_declaration: BraceStyle,
    /// `method-declaration`.
    pub method_declaration: BraceStyle,
    /// `block`.
    pub block: BraceStyle,
    /// `lambda-body`.
    pub lambda_body: BraceStyle,
    /// `switch`.
    pub switch: BraceStyle,
    /// `array-initializer`.
    pub array_initializer: BraceStyle,
    /// `else-on-new-line`.
    pub else_on_new_line: bool,
    /// `while-on-new-line`.
    pub while_on_new_line: bool,
    /// `catch-on-new-line`.
    pub catch_on_new_line: bool,
    /// `finally-on-new-line`.
    pub finally_on_new_line: bool,
    /// `compact-else-if`.
    pub compact_else_if: bool,
    /// `force-if`.
    pub force_if: ForceBraces,
    /// `force-for`.
    pub force_for: ForceBraces,
    /// `force-while`.
    pub force_while: ForceBraces,
    /// `force-do-while`.
    pub force_do_while: ForceBraces,
    /// `force-switch-arm`.
    pub force_switch_arm: ForceBraces,
    /// `keep-type-body-on-one-line`.
    pub keep_type_body_on_one_line: KeepOnOneLine,
    /// `keep-method-body-on-one-line`.
    pub keep_method_body_on_one_line: KeepOnOneLine,
    /// `keep-block-on-one-line`.
    pub keep_block_on_one_line: KeepOnOneLine,
    /// `keep-lambda-body-on-one-line`.
    pub keep_lambda_body_on_one_line: KeepOnOneLine,
    /// `keep-switch-body-on-one-line`.
    pub keep_switch_body_on_one_line: KeepOnOneLine,
    /// `keep-enum-declaration-on-one-line`.
    pub keep_enum_declaration_on_one_line: KeepOnOneLine,
    /// `keep-record-declaration-on-one-line`.
    pub keep_record_declaration_on_one_line: KeepOnOneLine,
    /// `keep-annotation-declaration-on-one-line`.
    pub keep_annotation_declaration_on_one_line: KeepOnOneLine,
    /// `keep-control-statement-on-one-line`.
    pub keep_control_statement_on_one_line: bool,
}

impl Braces {
    /// Whether every field holds the library default.
    pub open spec fn is_default(&self) -> bool {
        &&& self.type_declaration == BraceStyle::SameLine
        &&& self.method_declaration == BraceStyle::SameLine
        &&& self.block == BraceStyle::SameLine
        &&& self.lambda_body == BraceStyle::SameLine
        &&& self.switch == BraceStyle::SameLine
        &&& self.array_initializer == BraceStyle::SameLine
        &&& self.else_on_new_line == false
        &&& self.while_on_new_line == false
        &&& self.catch_on_new_line == false
        &&& self.finally_on_new_line == false
        &&& self.compact_else_if == true
        &&& self.force_if == ForceBraces::Never
        &&& self.force_for == ForceBraces::Never
        &&& self.force_while == ForceBraces::Never
        &&& self.force_do_while == ForceBraces::Never
        &&& self.force_switch_arm == ForceBraces::Never
        &&& self.keep_type_body_on_one_line == KeepOnOneLine::Never
        &&& self.keep_method_body_on_one_line == KeepOnOneLine::Never
        &&& self.keep_block_on_one_line == KeepOnOneLine::Never
        &&& self.keep_lambda_body_on_one_line == KeepOnOneLine::IfSingleItem
        &&& self.keep_switch_body_on_one_line == KeepOnOneLine::Never
        &&& self.keep_enum_declaration_on_one_line == KeepOnOneLine::Never
        &&& self.keep_record_declaration_on_one_line == KeepOnOneLine::Never
        &&& self.keep_annotation_declaration_on_one_line == KeepOnOneLine::Never
        &&& self.keep_control_statement_on_one_line == false
    }
}

impl Default for Braces {
    fn default() -> (r: Self)
        ensures
            r.is_default(),
    {
        Braces {
            type_declaration: BraceStyle::SameLine,
            method_declaration: BraceStyle::SameLine,
            block: BraceStyle::SameLine,
            lambda_body: BraceStyle::SameLine,
            switch: BraceStyle::SameLine,
            array_initializer: BraceStyle::SameLine,
            else_on_new_line: false,
            while_on_new_line: false,
            catch_on_new_line: false,
            finally_on_new_line: false,
            compact_else_if: true,
            force_if: ForceBraces::Never,
            force_for: ForceBraces::Never,
            force_while: ForceBraces::Never,
            force_do_while: ForceBraces::Never,
            force_switch_arm: ForceBraces::Never,
            keep_type_body_on_one_line: KeepOnOneLine::Never,
            keep_method_body_on_one_line: KeepOnOneLine::Never,
            keep_block_on_one_line: KeepOnOneLine::Never,
            keep_lambda_body_on_one_line: KeepOnOneLine::IfSingleItem,
            keep_switch_body_on_one_line: KeepOnOneLine::Never,
            keep_enum_declaration_on_one_line: KeepOnOneLine::Never,
            keep_record_declaration_on_one_line: KeepOnOneLine::Never,
            keep_annotation_declaration_on_one_line: KeepOnOneLine::Never,
            keep_control_statement_on_one_line: false,
        }
    }
}

/// `[wrapping]`: when and how each construct wraps.
#[derive(Debug, Clone, Copy, PartialEq, Eq)]
pub struct Wrapping {
    /// `call-arguments`.
    pub call_arguments: WrapPolicy,
    /// `method-parameters`.
    pub method_parameters: WrapPolicy,
    /// `record-components`.
    pub record_components: WrapPolicy,
    /// `resource-list`.
    pub resource_list: WrapPolicy,
    /// `throws-list`.
    pub throws_list: WrapPolicy,
    /// `extends-list`.
    pub extends_list: WrapPolicy,
    /// `enum-constants`.
    pub enum_constants: WrapPolicy,
    /// `array-initializer`.
    pub array_initializer: WrapPolicy,
    /// `annotation-arguments`.
    pub annotation_arguments: WrapPolicy,
    /// `type-arguments`.
    pub type_arguments: WrapPolicy,
    /// `type-parameters`.
    pub type_parameters: WrapPolicy,
    /// `multi-catch-types`.
    pub multi_catch_types: WrapPolicy,
    /// `deconstruction-list`.
    pub deconstruction_list: WrapPolicy,
    /// `case-labels`.
    pub case_labels: WrapPolicy,
    /// `method-chain`.
    pub method_chain: WrapPolicy,
    /// `binary-operation`.
    pub binary_operation: WrapPolicy,
    /// `ternary`.
    pub ternary: WrapPolicy,
    /// `assignment`.
    pub assignment: WrapPolicy,
    /// `for-statement`.
    pub for_statement: WrapPolicy,
    /// `assert-statement`.
    pub assert_statement: WrapPolicy,
    /// `switch-expression`.
    pub switch_expression: WrapPolicy,
    /// `labeled-statement`.
    pub labeled_statement: WrapPolicy,
    /// `type-annotations`.
    pub type_annotations: WrapPolicy,
    /// `method-annotations`.
    pub method_annotations: WrapPolicy,
    /// `field-annotations`.
    pub field_annotations: WrapPolicy,
    /// `parameter-annotations`.
    pub parameter_annotations: WrapPolicy,
    /// `variable-annotations`.
    pub variable_annotations: WrapPolicy,
    /// `import-group`.
    pub import_group: WrapPolicy,
    /// `before-binary-operator`.
    pub before_binary_operator: bool,
    /// `before-ternary-operator`.
    pub before_ternary_operator: bool,
    /// `before-assignment-operator`.
    pub before_assignment_operator: bool,
    /// `before-assert-colon`.
    pub before_assert_colon: bool,
    /// `wrap-first-method-in-chain`.
    pub wrap_first_method_in_chain: bool,
    /// `join-wrapped-lines`.
    pub join_wrapped_lines: bool,
    /// `wrap-long-lines`.
    pub wrap_long_lines: bool,
    /// `tabular-array-initializers`.
    pub tabular_array_initializers: bool,
    /// `format-string-arguments`.
    pub format_string_arguments: bool,
    /// `reflow-long-strings`.
    pub reflow_long_strings: bool,
    /// `remove-nested-parens`.
    pub remove_nested_parens: bool,
    /// `paren-method-declaration`.
    pub paren_method_declaration: ParenPositions,
    /// `paren-method-invocation`.
    pub paren_method_invocation: ParenPositions,
    /// `paren-control`.
    pub paren_control: ParenPositions,
    /// `paren-annotation`.
    pub paren_annotation: ParenPositions,
    /// `paren-lambda`.
    pub paren_lambda: ParenPositions,
    /// `paren-record`.
    pub paren_record: ParenPositions,
    /// `fill-item-width`.
    pub fill_item_width: usize,
    /// `inline-argumentless-annotations`.
    pub inline_argumentless_annotations: InlineAnnotations,
}

impl Wrapping {
    /// Whether every field holds the library default.
    pub open spec fn is_default(&self) -> bool {
        &&& self.call_arguments == WrapPolicy::IfLong
        &&& self.method_parameters == WrapPolicy::IfLong
        &&& self.record_components == WrapPolicy::IfLong
        &&& self.resource_list == WrapPolicy::IfLong
        &&& self.throws_list == WrapPolicy::IfLong
        &&& self.extends_list == WrapPolicy::IfLong
        &&& self.enum_constants == WrapPolicy::IfLong
        &&& self.array_initializer == WrapPolicy::IfLong
        &&& self.annotation_arguments == WrapPolicy::IfLong
        &&& self.type_arguments == WrapPolicy::IfLong
        &&& self.type_parameters == WrapPolicy::IfLong
        &&& self.multi_catch_types == WrapPolicy::IfLong
        &&& self.deconstruction_list == WrapPolicy::IfLong
        &&& self.case_labels == WrapPolicy::IfLong
        &&& self.method_chain == WrapPolicy::IfLong
        &&& self.binary_operation == WrapPolicy::IfLong
        &&& self.ternary == WrapPolicy::IfLong
        &&& self.assignment == WrapPolicy::IfLong
        &&& self.for_statement == WrapPolicy::IfLong
        &&& self.assert_statement == WrapPolicy::IfLong
        &&& self.switch_expression == WrapPolicy::IfLong
        &&& self.labeled_statement == WrapPolicy::Never
        &&& self.type_annotations == WrapPolicy::AlwaysPerItem
        &&& self.method_annotations == WrapPolicy::AlwaysPerItem
        &&& self.field_annotations == WrapPolicy::AlwaysPerItem
        &&& self.parameter_annotations == WrapPolicy::Never
        &&& self.variable_annotations == WrapPolicy::Never
        &&& self.import_group == WrapPolicy::Never
        &&& self.before_binary_operator == true
        &&& self.before_ternary_operator == true
        &&& self.before_assignment_operator == false
        &&& self.before_assert_colon == false
        &&& self.wrap_first_method_in_chain == false
        &&& self.join_wrapped_lines == false
        &&& self.wrap_long_lines == false
        &&& self.tabular_array_initializers == false
        &&& self.format_string_arguments == false
        &&& self.reflow_long_strings == false
        &&& self.remove_nested_parens == false
        &&& self.paren_method_declaration == ParenPositions::CommonLines
        &&& self.paren_method_invocation == ParenPositions::CommonLines
        &&& self.paren_control == ParenPositions::CommonLines
        &&& self.paren_annotation == ParenPositions::CommonLines
        &&& self.paren_lambda == ParenPositions::CommonLines
        &&& self.paren_record == ParenPositions::CommonLines
        &&& self.fill_item_width == 0
        &&& self.inline_argumentless_annotations == InlineAnnotations::Never
    }
}

impl Default for Wrapping {
    fn default() -> (r: Self)
        ensures
            r.is_default(),
    {
        Wrapping {
            call_arguments: WrapPolicy::IfLong,
            method_parameters: WrapPolicy::IfLong,
            record_components: WrapPolicy::IfLong,
            resource_list: WrapPolicy::IfLong,
            throws_list: WrapPolicy::IfLong,
            extends_list: WrapPolicy::IfLong,
            enum_constants: WrapPolicy::IfLong,
            array_initializer: WrapPolicy::IfLong,
            annotation_arguments: WrapPolicy::IfLong,
            type_arguments: WrapPolicy::IfLong,
            type_parameters: WrapPolicy::IfLong,
            multi_catch_types: WrapPolicy::IfLong,
            deconstruction_list: WrapPolicy::IfLong,
            case_labels: WrapPolicy::IfLong,
            method_chain: WrapPolicy::IfLong,
            binary_operation: WrapPolicy::IfLong,
            ternary: WrapPolicy::IfLong,
            assignment: WrapPolicy::IfLong,
            for_statement: WrapPolicy::IfLong,
            assert_statement: WrapPolicy::IfLong,
            switch_expression: WrapPolicy::IfLong,
            labeled_statement: WrapPolicy::Never,
            type_annotations: WrapPolicy::AlwaysPerItem,
            method_annotations: WrapPolicy::AlwaysPerItem,
            field_annotations: WrapPolicy::AlwaysPerItem,
            parameter_annotations: WrapPolicy::Never,
            variable_annotations: WrapPolicy::Never,
            import_group: WrapPolicy::Never,
            before_binary_operator: true,
            before_ternary_operator: true,
            before_assignment_operator: false,
            before_assert_colon: false,
            wrap_first_method_in_chain: false,
            join_wrapped_lines: false,
            wrap_long_lines: false,
            tabular_array_initializers: false,
            format_string_arguments: false,
            reflow_long_strings: false,
            remove_nested_parens: false,
            paren_method_declaration: ParenPositions::CommonLines,
            paren_method_invocation: ParenPositions::CommonLines,
            paren_control: ParenPositions::CommonLines,
            paren_annotation: ParenPositions::CommonLines,
            paren_lambda: ParenPositions::CommonLines,
            paren_record: ParenPositions::CommonLines,
            fill_item_width: 0,
            inline_argumentless_annotations: InlineAnnotations::Never,
        }
    }
}

/// `[spacing]`: where spaces go, by token role.
#[derive(Debug, Clone, Copy, PartialEq, Eq)]
pub struct Spacing {
    /// `around-assignment-operators`.
    pub around_assignment_operators: bool,
    /// `around-logical-operators`.
    pub around_logical_operators: bool,
    /// `around-equality-operators`.
    pub around_equality_operators: bool,
    /// `around-relational-operators`.
    pub around_relational_operators: bool,
    /// `around-bitwise-operators`.
    pub around_bitwise_operators: bool,
    /// `around-additive-operators`.
    pub around_additive_operators: bool,
    /// `around-multiplicative-operators`.
    pub around_multiplicative_operators: bool,
    /// `around-shift-operators`.
    pub around_shift_operators: bool,
    /// `around-unary-operator`.
    pub around_unary_operator: bool,
    /// `around-lambda-arrow`.
    pub around_lambda_arrow: bool,
    /// `around-method-ref-double-colon`.
    pub around_method_ref_double_colon: bool,
    /// `around-type-bounds`.
    pub around_type_bounds: bool,
    /// `around-annotation-eq`.
    pub around_annotation_eq: bool,
    /// `before-comma`.
    pub before_comma: bool,
    /// `after-comma`.
    pub after_comma: bool,
    /// `before-semicolon`.
    pub before_semicolon: bool,
    /// `after-semicolon`.
    pub after_semicolon: bool,
    /// `before-method-call-parentheses`.
    pub before_method_call_parentheses: bool,
    /// `before-method-parentheses`.
    pub before_method_parentheses: bool,
    /// `before-keyword-parentheses`.
    pub before_keyword_parentheses: bool,
    /// `before-annotation-parentheses`.
    pub before_annotation_parentheses: bool,
    /// `within-method-call-parentheses`.
    pub within_method_call_parentheses: bool,
    /// `within-method-parentheses`.
    pub within_method_parentheses: bool,
    /// `within-keyword-parentheses`.
    pub within_keyword_parentheses: bool,
    /// `within-cast-parentheses`.
    pub within_cast_parentheses: bool,
    /// `within-annotation-parentheses`.
    pub within_annotation_parentheses: bool,
    /// `within-brackets`.
    pub within_brackets: bool,
    /// `within-array-initializer-braces`.
    pub within_array_initializer_braces: bool,
    /// `within-angle-brackets`.
    pub within_angle_brackets: bool,
    /// `within-record-header`.
    pub within_record_header: bool,
    /// `within-empty-parentheses`.
    pub within_empty_parentheses: bool,
    /// `within-empty-braces`.
    pub within_empty_braces: bool,
    /// `before-left-brace`.
    pub before_left_brace: bool,
    /// `before-array-initializer-left-brace`.
    pub before_array_initializer_left_brace: bool,
    /// `before-continuation-keyword`.
    pub before_continuation_keyword: bool,
    /// `after-type-cast`.
    pub after_type_cast: bool,
    /// `before-type-parameter-list`.
    pub before_type_parameter_list: bool,
    /// `before-ternary-question`.
    pub before_ternary_question: bool,
    /// `after-ternary-question`.
    pub after_ternary_question: bool,
    /// `before-ternary-colon`.
    pub before_ternary_colon: bool,
    /// `after-ternary-colon`.
    pub after_ternary_colon: bool,
    /// `before-foreach-colon`.
    pub before_foreach_colon: bool,
    /// `after-foreach-colon`.
    pub after_foreach_colon: bool,
    /// `before-label-colon`.
    pub before_label_colon: bool,
    /// `after-label-colon`.
    pub after_label_colon: bool,
    /// `before-case-colon`.
    pub before_case_colon: bool,
    /// `after-case-colon`.
    pub after_case_colon: bool,
    /// `before-assert-colon`.
    pub before_assert_colon: bool,
    /// `after-assert-colon`.
    pub after_assert_colon: bool,
}

impl Spacing {
    /// Whether every field holds the library default.
    pub open spec fn is_default(&self) -> bool {
        &&& self.around_assignment_operators == true
        &&& self.around_logical_operators == true
        &&& self.around_equality_operators == true
        &&& self.around_relational_operators == true
        &&& self.around_bitwise_operators == true
        &&& self.around_additive_operators == true
        &&& self.around_multiplicative_operators == true
        &&& self.around_shift_operators == true
        &&& self.around_unary_operator == false
        &&& self.around_lambda_arrow == true
        &&& self.around_method_ref_double_colon == false
        &&& self.around_type_bounds == true
        &&& self.around_annotation_eq == true
        &&& self.before_comma == false
        &&& self.after_comma == true
        &&& self.before_semicolon == false
        &&& self.after_semicolon == true
        &&& self.before_method_call_parentheses == false
        &&& self.before_method_parentheses == false
        &&& self.before_keyword_parentheses == true
        &&& self.before_annotation_parentheses == false
        &&& self.within_method_call_parentheses == false
        &&& self.within_method_parentheses == false
        &&& self.within_keyword_parentheses == false
        &&& self.within_cast_parentheses == false
        &&& self.within_annotation_parentheses == false
        &&& self.within_brackets == false
        &&& self.within_array_initializer_braces == false
        &&& self.within_angle_brackets == false
        &&& self.within_record_header == false
        &&& self.within_empty_parentheses == false
        &&& self.within_empty_braces == false
        &&& self.before_left_brace == true
        &&& self.before_array_initializer_left_brace == false
        &&& self.before_continuation_keyword == true
        &&& self.after_type_cast == true
        &&& self.before_type_parameter_list == false
        &&& self.before_ternary_question == true
        &&& self.after_ternary_question == true
        &&& self.before_ternary_colon == true
        &&& self.after_ternary_colon == true
        &&& self.before_foreach_colon == true
        &&& self.after_foreach_colon == true
        &&& self.before_label_colon == false
        &&& self.after_label_colon == true
        &&& self.before_case_colon == false
        &&& self.after_case_colon == true
        &&& self.before_assert_colon == true
        &&& self.after_assert_colon == true
    }
}

impl Default for Spacing {
    fn default() -> (r: Self)
        ensures
            r.is_default(),
    {
        Spacing {
            around_assignment_operators: true,
            around_logical_operators: true,
            around_equality_operators: true,
            around_relational_operators: true,
            around_bitwise_operators: true,
            around_additive_operators: true,
            around_multiplicative_operators: true,
            around_shift_operators: true,
            around_unary_operator: false,
            around_lambda_arrow: true,
            around_method_ref_double_colon: false,
            around_type_bounds: true,
            around_annotation_eq: true,
            before_comma: false,
            after_comma: true,
            before_semicolon: false,
            after_semicolon: true,
            before_method_call_parentheses: false,
            before_method_parentheses: false,
            before_keyword_parentheses: true,
            before_annotation_parentheses: false,
            within_method_call_parentheses: false,
            within_method_parentheses: false,
            within_keyword_parentheses: false,
            within_cast_parentheses: false,
            within_annotation_parentheses: false,
            within_brackets: false,
            within_array_initializer_braces: false,
            within_angle_brackets: false,
            within_record_header: false,
            within_empty_parentheses: false,
            within_empty_braces: false,
            before_left_brace: true,
            before_array_initializer_left_brace: false,
            before_continuation_keyword: true,
            after_type_cast: true,
            before_type_parameter_list: false,
            before_ternary_question: true,
            after_ternary_question: true,
            before_ternary_colon: true,
            after_ternary_colon: true,
            before_foreach_colon: true,
            after_foreach_colon: true,
            before_label_colon: false,
            after_label_colon: true,
            before_case_colon: false,
            after_case_colon: true,
            before_assert_colon: true,
            after_assert_colon: true,
        }
    }
}

/// `[comments]`: which comments are reflowed, and how.
#[derive(Debug, Clone, Copy, PartialEq, Eq)]
pub struct Comments {
    /// `format-line`.
    pub format_line: bool,
    /// `format-block`.
    pub format_block: bool,
    /// `format-javadoc`.
    pub format_javadoc: bool,
    /// `format-header`.
    pub format_header: bool,
    /// `format-html`.
    pub format_html: bool,
    /// `format-source-in-comments`.
    pub format_source_in_comments: bool,
    /// `width`.
    pub width: usize,
    /// `count-width-from-start`.
    pub count_width_from_start: bool,
    /// `preserve-blank-lines`.
    pub preserve_blank_lines: bool,
    /// `preserve-line-breaks`.
    pub preserve_line_breaks: bool,
    /// `blank-line-before-tags`.
    pub blank_line_before_tags: bool,
    /// `blank-lines-between-tags`.
    pub blank_lines_between_tags: bool,
    /// `align-tag-descriptions`.
    pub align_tag_descriptions: bool,
    /// `indent-tag-description`.
    pub indent_tag_description: bool,
    /// `leading-asterisks`.
    pub leading_asterisks: bool,
    /// `normalize-parameter-comments`.
    pub normalize_parameter_comments: bool,
    /// `inline-block-comments`.
    pub inline_block_comments: bool,
    /// `normalize-block-comments`.
    pub normalize_block_comments: bool,
    /// `reflow-unclosed-html`.
    pub reflow_unclosed_html: bool,
    /// `javadoc-boundaries-on-own-lines`.
    pub javadoc_boundaries_on_own_lines: bool,
    /// `block-boundaries-on-own-lines`.
    pub block_boundaries_on_own_lines: bool,
    /// `break-inside-inline-tags`.
    pub break_inside_inline_tags: bool,
    /// `set-off-html-lists`.
    pub set_off_html_lists: bool,
    /// `tables-are-preformatted`.
    pub tables_are_preformatted: bool,
    /// `code-block-width`.
    pub code_block_width: usize,
    /// `paragraph-tags`.
    pub paragraph_tags: ParagraphTags,
    /// `tag-alignment`.
    pub tag_alignment: TagAlignment,
}

impl Comments {
    /// Whether every field holds the library default.
    pub open spec fn is_default(&self) -> bool {
        &&& self.format_line == false
        &&& self.format_block == false
        &&& self.format_javadoc == false
        &&& self.format_header == false
        &&& self.format_html == true
        &&& self.format_source_in_comments == false
        &&& self.width == 100
        &&& self.count_width_from_start == false
        &&& self.preserve_blank_lines == true
        &&& self.preserve_line_breaks == false
        &&& self.blank_line_before_tags == false
        &&& self.blank_lines_between_tags == false
        &&& self.align_tag_descriptions == false
        &&& self.indent_tag_description == false
        &&& self.leading_asterisks == true
        &&& self.normalize_parameter_comments == false
        &&& self.inline_block_comments == false
        &&& self.normalize_block_comments == false
        &&& self.reflow_unclosed_html == false
        &&& self.javadoc_boundaries_on_own_lines == false
        &&& self.block_boundaries_on_own_lines == false
        &&& self.break_inside_inline_tags == true
        &&& self.set_off_html_lists == true
        &&& self.tables_are_preformatted == false
        &&& self.code_block_width == 0
        &&& self.paragraph_tags == ParagraphTags::Leading
        &&& self.tag_alignment == TagAlignment::Unaligned
    }
}

impl Default for Comments {
    fn default() -> (r: Self)
        ensures
            r.is_default(),
    {
        Comments {
            format_line: false,
            format_block: false,
            format_javadoc: false,
            format_header: false,
            format_html: true,
            format_source_in_comments: false,
            width: 100,
            count_width_from_start: false,
            preserve_blank_lines: true,
            preserve_line_breaks: false,
            blank_line_before_tags: false,
            blank_lines_between_tags: false,
            align_tag_descriptions: false,
            indent_tag_description: false,
            leading_asterisks: true,
            normalize_parameter_comments: false,
            inline_block_comments: false,
            normalize_block_comments: false,
            reflow_unclosed_html: false,
            javadoc_boundaries_on_own_lines: false,
            block_boundaries_on_own_lines: false,
            break_inside_inline_tags: true,
            set_off_html_lists: true,
            tables_are_preformatted: false,
            code_block_width: 0,
            paragraph_tags: ParagraphTags::Leading,
            tag_alignment: TagAlignment::Unaligned,
        }
    }
}

/// `[imports]`: import ordering and grouping.
#[derive(Debug, Clone, PartialEq, Eq)]
pub struct Imports {
    /// How imports are ordered.
    pub order: ImportOrder,
    /// The group prefixes, in order; `"*"` is the catch-all, `"static"` the static imports.
    pub groups: Vec<String>,
    /// Static imports before the others.
    pub static_first: bool,
    /// Put modifiers in canonical order.
    pub reorder_modifiers: bool,
    /// Delete an import no name uses.
    pub remove_unused: bool,
}

impl Imports {
    /// Whether every field holds the library default.
    pub open spec fn is_default(&self) -> bool {
        &&& self.order == ImportOrder::Preserve
        &&& self.groups@.len() == 0
        &&& self.static_first == false
        &&& self.reorder_modifiers == false
        &&& self.remove_unused == false
    }
}

impl Default for Imports {
    fn default() -> (r: Self)
        ensures
            r.is_default(),
    {
        Imports {
            order: ImportOrder::Preserve,
            groups: Vec::new(),
            static_first: false,
            reorder_modifiers: false,
            remove_unused: false,
        }
    }
}

/// The jals formatter configuration.
#[derive(Debug, Clone, PartialEq, Eq)]
pub struct Config {
    /// `[layout]`: indentation, width and the file-level rules.
    pub layout: Layout,
    /// `[blank-lines]`: how many blank lines go where.
    pub blank_lines: BlankLines,
    /// `[braces]`: brace placement, brace forcing, and one-line bodies.
    pub braces: Braces,
    /// `[wrapping]`: when and how each construct wraps.
    pub wrapping: Wrapping,
    /// `[spacing]`: where spaces go, by token role.
    pub spacing: Spacing,
    /// `[comments]`: which comments are reflowed, and how.
    pub comments: Comments,
    /// `[imports]`: import ordering and grouping.
    pub imports: Imports,
}

impl Config {
    /// Whether every section holds the library default.
    pub open spec fn is_default(&self) -> bool {
        &&& self.layout.is_default()
        &&& self.blank_lines.is_default()
        &&& self.braces.is_default()
        &&& self.wrapping.is_default()
        &&& self.spacing.is_default()
        &&& self.comments.is_default()
        &&& self.imports.is_default()
    }
}

impl Default for Config {
    fn default() -> (r: Self)
        ensures
            r.is_default(),
    {
        Config {
            layout: Layout::default(),
            blank_lines: BlankLines::default(),
            braces: Braces::default(),
            wrapping: Wrapping::default(),
            spacing: Spacing::default(),
            comments: Comments::default(),
            imports: Imports::default(),
        }
    }
}

} // verus!
