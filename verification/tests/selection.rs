use perceptron_select::registry::{EntityRegistry, Role, WeightTexts};
use perceptron_select::selection::{resolve_pick, Highlight, PickResult, SelectionController};

fn texts(weights: &[f64]) -> WeightTexts {
    let mut all = Vec::new();
    for w in weights {
        all.push(w.to_string());
    }
    WeightTexts::new(all)
}

fn count_selected(all: &[Highlight]) -> usize {
    let mut n = 0;
    for h in all {
        if *h == Highlight::Selected {
            n += 1;
        }
    }
    n
}

#[test]
fn a_new_controller_has_nothing_selected() {
    let controller = SelectionController::new();
    assert_eq!(controller.selected(), None);
    assert_eq!(controller.label(), None);
    let shown = controller.display();
    assert_eq!(shown.highlighted, None);
    assert_eq!(shown.label, None);
}

#[test]
fn a_miss_on_nothing_selected_changes_nothing() {
    let mut registry = EntityRegistry::new(0);
    registry.register(1, Role::OutputNode).unwrap();
    let weights = texts(&[]);
    let mut controller = SelectionController::new();
    let shown = controller.on_pick(&registry, &weights, PickResult::Miss);
    assert_eq!(shown.highlighted, None);
    assert_eq!(shown.label, None);
    assert_eq!(controller.selected(), None);
    assert_eq!(controller.label(), None);
    let again = controller.on_pick(&registry, &weights, PickResult::Miss);
    assert_eq!(again.highlighted, None);
    assert_eq!(again.label, None);
    assert_eq!(controller.highlights(&registry), vec![Highlight::Neutral]);
}

#[test]
fn hit_miss_hit_selects_clears_and_selects() {
    let mut registry = EntityRegistry::new(3);
    registry.register(10, Role::InputNode(0)).unwrap();
    registry.register(20, Role::OutputNode).unwrap();
    let weights = texts(&[0.1, 0.2, 0.3]);
    let mut controller = SelectionController::new();

    let shown = controller.on_pick(&registry, &weights, PickResult::Hit(10));
    assert_eq!(shown.highlighted, Some(10));
    assert_eq!(shown.label, Some(String::from("Input 1")));
    assert_eq!(controller.selected(), Some(10));
    assert_eq!(controller.label(), Some(String::from("Input 1")));

    let shown = controller.on_pick(&registry, &weights, PickResult::Miss);
    assert_eq!(shown.highlighted, None);
    assert_eq!(shown.label, None);
    assert_eq!(controller.selected(), None);
    assert_eq!(controller.label(), None);

    let shown = controller.on_pick(&registry, &weights, PickResult::Hit(20));
    assert_eq!(shown.highlighted, Some(20));
    assert_eq!(shown.label, Some(String::from("Output Node")));
    assert_eq!(controller.selected(), Some(20));
    assert_eq!(controller.label(), Some(String::from("Output Node")));
}

#[test]
fn a_hit_on_a_weight_edge_shows_the_weight() {
    let mut registry = EntityRegistry::new(3);
    registry.register(5, Role::WeightEdge(0)).unwrap();
    let weights = texts(&[0.37, 0.81, 0.02]);
    let mut controller = SelectionController::new();
    let shown = controller.on_pick(&registry, &weights, PickResult::Hit(5));
    assert_eq!(shown.highlighted, Some(5));
    assert_eq!(shown.label, Some(String::from("0.37")));
    assert_eq!(controller.label(), Some(String::from("0.37")));
}

#[test]
fn a_hit_on_an_unregistered_identifier_clears_the_selection() {
    let mut registry = EntityRegistry::new(1);
    registry.register(1, Role::OutputNode).unwrap();
    let weights = texts(&[0.5]);
    let mut controller = SelectionController::new();
    controller.on_pick(&registry, &weights, PickResult::Hit(1));
    assert_eq!(controller.selected(), Some(1));
    let shown = controller.on_pick(&registry, &weights, PickResult::Hit(99));
    assert_eq!(shown.highlighted, None);
    assert_eq!(shown.label, None);
    assert_eq!(controller.selected(), None);
    assert_eq!(controller.label(), None);
}

#[test]
fn a_hit_replaces_the_earlier_selection() {
    let mut registry = EntityRegistry::new(2);
    registry.register(1, Role::InputNode(0)).unwrap();
    registry.register(2, Role::InputNode(1)).unwrap();
    registry.register(3, Role::WeightEdge(1)).unwrap();
    let weights = texts(&[0.25, -1.5]);
    let mut controller = SelectionController::new();
    controller.on_pick(&registry, &weights, PickResult::Hit(1));
    let shown = controller.on_pick(&registry, &weights, PickResult::Hit(3));
    assert_eq!(shown.highlighted, Some(3));
    assert_eq!(shown.label, Some(String::from("-1.5")));
    assert_eq!(controller.highlight_of(1), Highlight::Neutral);
    assert_eq!(controller.highlight_of(3), Highlight::Selected);
}

#[test]
fn after_a_hit_exactly_one_entity_is_selected() {
    let mut registry = EntityRegistry::new(2);
    registry.register(1, Role::InputNode(0)).unwrap();
    registry.register(2, Role::InputNode(1)).unwrap();
    registry.register(3, Role::OutputNode).unwrap();
    registry.register(4, Role::WeightEdge(0)).unwrap();
    let weights = texts(&[0.25, 0.75]);
    let mut controller = SelectionController::new();
    for id in [3u64, 1, 4, 2, 2] {
        controller.on_pick(&registry, &weights, PickResult::Hit(id));
        let all = controller.highlights(&registry);
        assert_eq!(all.len(), 4);
        assert_eq!(count_selected(&all), 1);
        assert_eq!(all[registry.place_of(id).unwrap()], Highlight::Selected);
    }
    controller.on_pick(&registry, &weights, PickResult::Miss);
    assert_eq!(count_selected(&controller.highlights(&registry)), 0);
    controller.on_pick(&registry, &weights, PickResult::Hit(77));
    assert_eq!(count_selected(&controller.highlights(&registry)), 0);
}

#[test]
fn the_first_registered_of_two_hits_wins() {
    let mut registry = EntityRegistry::new(1);
    registry.register(8, Role::OutputNode).unwrap();
    registry.register(4, Role::InputNode(0)).unwrap();
    registry.register(6, Role::WeightEdge(0)).unwrap();
    assert_eq!(resolve_pick(&registry, &vec![4, 6]), PickResult::Hit(4));
    assert_eq!(resolve_pick(&registry, &vec![6, 4]), PickResult::Hit(4));
    assert_eq!(resolve_pick(&registry, &vec![6, 8]), PickResult::Hit(8));
    assert_eq!(resolve_pick(&registry, &vec![6, 4, 8, 6]), PickResult::Hit(8));
    for _ in 0..3 {
        assert_eq!(resolve_pick(&registry, &vec![6, 4]), PickResult::Hit(4));
    }
}

#[test]
fn a_single_hit_is_the_pick() {
    let mut registry = EntityRegistry::new(1);
    registry.register(8, Role::OutputNode).unwrap();
    registry.register(4, Role::InputNode(0)).unwrap();
    assert_eq!(resolve_pick(&registry, &vec![4]), PickResult::Hit(4));
    assert_eq!(resolve_pick(&registry, &vec![8]), PickResult::Hit(8));
}

#[test]
fn no_registered_hit_is_a_miss() {
    let mut registry = EntityRegistry::new(1);
    registry.register(8, Role::OutputNode).unwrap();
    assert_eq!(resolve_pick(&registry, &Vec::new()), PickResult::Miss);
    assert_eq!(resolve_pick(&registry, &vec![1, 2, 3]), PickResult::Miss);
    assert_eq!(resolve_pick(&EntityRegistry::new(0), &vec![8]), PickResult::Miss);
    assert_eq!(resolve_pick(&registry, &vec![1, 8]), PickResult::Hit(8));
}

#[test]
fn the_selected_colour_is_red_and_the_neutral_one_is_grey() {
    assert_eq!(Highlight::Selected.rgba(), (255, 0, 0, 255));
    assert_eq!(Highlight::Neutral.rgba(), (128, 128, 128, 128));
}

#[test]
fn the_display_follows_the_controller() {
    let mut registry = EntityRegistry::new(1);
    registry.register(2, Role::InputNode(4)).unwrap();
    let weights = texts(&[1.0]);
    let mut controller = SelectionController::new();
    controller.on_pick(&registry, &weights, PickResult::Hit(2));
    let shown = controller.display();
    assert_eq!(shown.highlighted, Some(2));
    assert_eq!(shown.label, Some(String::from("Input 5")));
}
