use jals_fmt::ir::{Break, Doc, FillMode, Indent};

#[test]
fn a_run_measures_the_sum_of_its_widths() {
    let docs = [Doc::token("ab"), Doc::Space, Doc::token("c")];
    assert_eq!(Doc::width_of(&docs), 4);
}

#[test]
fn an_infinite_child_makes_the_run_infinite() {
    let forced = Doc::Break(Break::new(FillMode::Forced, " ", Indent::zero(), None));
    let docs = [Doc::token("ab"), forced, Doc::token("c")];
    assert_eq!(Doc::width_of(&docs), usize::MAX);
}
