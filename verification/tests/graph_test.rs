use smartgrid_iot_security::agent::AgentKind;
use smartgrid_iot_security::model::MyGraph;
use smartgrid_iot_security::util::ModelError;

fn star() -> MyGraph {
    let mut graph = MyGraph::default();
    graph.add_node(AgentKind::Root, 0).unwrap();
    for index in 1..=5 {
        graph.add_node(AgentKind::Area, index).unwrap();
    }
    // edges in an order that is not the order of the targets
    for target in [4, 2, 5, 1, 3] {
        graph.add_edge(0, target).unwrap();
    }
    graph.add_edge(2, 3).unwrap();
    graph
}

#[test]
fn children_come_in_ascending_order() {
    let graph = star();
    assert_eq!(graph.get_children(&0).unwrap(), vec![1, 2, 3, 4, 5]);
    assert_eq!(graph.get_children(&2).unwrap(), vec![3]);
    assert_eq!(graph.get_children(&3).unwrap(), Vec::<i32>::new());
}

#[test]
fn a_child_that_is_entered_twice_is_listed_twice() {
    let mut graph = star();
    graph.add_edge(2, 3).unwrap();
    graph.add_edge(2, 1).unwrap();
    assert_eq!(graph.get_children(&2).unwrap(), vec![1, 3, 3]);
}

#[test]
fn an_edge_from_a_node_to_itself_makes_it_its_own_child() {
    let mut graph = star();
    graph.add_edge(4, 4).unwrap();
    graph.add_edge(4, 1).unwrap();
    assert_eq!(graph.get_children(&4).unwrap(), vec![1, 4]);
    assert_eq!(graph.get_children(&1).unwrap(), Vec::<i32>::new());
}

#[test]
fn a_node_that_is_not_in_the_graph_has_no_children() {
    let graph = star();
    assert_eq!(graph.get_children(&6).unwrap(), Vec::<i32>::new());
    assert_eq!(graph.get_children(&-1).unwrap(), Vec::<i32>::new());
    assert_eq!(graph.get_children(&i32::MIN).unwrap(), Vec::<i32>::new());
    assert_eq!(MyGraph::new().get_children(&0).unwrap(), Vec::<i32>::new());
}

#[test]
fn a_node_must_get_the_next_free_index() {
    let mut graph = MyGraph::new();
    assert_eq!(graph.node_count(), 0);
    assert!(matches!(graph.add_node(AgentKind::Root, 1), Err(ModelError::GraphError(_))));
    assert_eq!(graph.node_count(), 0);
    assert!(graph.add_node(AgentKind::Root, 0).is_ok());
    assert!(matches!(graph.add_node(AgentKind::Area, 0), Err(ModelError::GraphError(_))));
    assert!(matches!(graph.add_node(AgentKind::Area, 2), Err(ModelError::GraphError(_))));
    assert!(graph.add_node(AgentKind::Area, 1).is_ok());
    assert_eq!(graph.node_count(), 2);
}

#[test]
fn the_error_of_a_misplaced_node_names_its_kind_and_index() {
    let mut graph = MyGraph::new();
    match graph.add_node(AgentKind::Netstation, 7) {
        Err(error) => assert_eq!(
            error.message(),
            "Something went wrong with the graph: Something went wrong with creating a Netstation node with index 7"
        ),
        Ok(()) => panic!("a node with a wrong index was taken"),
    }
}

#[test]
fn an_edge_needs_both_of_its_nodes() {
    let mut graph = MyGraph::new();
    graph.add_node(AgentKind::Root, 0).unwrap();
    graph.add_node(AgentKind::Area, 1).unwrap();
    assert!(matches!(graph.add_edge(0, 2), Err(ModelError::GraphError(_))));
    assert!(matches!(graph.add_edge(2, 0), Err(ModelError::GraphError(_))));
    assert_eq!(graph.get_children(&0).unwrap(), Vec::<i32>::new());
    assert!(graph.add_edge(0, 1).is_ok());
    assert_eq!(graph.get_children(&0).unwrap(), vec![1]);
}

#[test]
fn the_weight_of_a_node_is_the_index_of_its_agent() {
    let graph = star();
    let weights: Vec<i32> = graph.content.node_weights().copied().collect();
    assert_eq!(weights, vec![0, 1, 2, 3, 4, 5]);
    assert_eq!(graph.content.edge_count(), 6);
}

#[test]
fn the_errors_of_the_graph_write_indices_in_decimal() {
    let mut graph = MyGraph::new();
    match graph.add_node(AgentKind::Household, 4_294_967_295) {
        Err(ModelError::GraphError(text)) => {
            assert_eq!(text, "Something went wrong with creating a Household node with index 4294967295")
        }
        other => panic!("expected a graph error, got {other:?}"),
    }
    match graph.add_node(AgentKind::Root, 10) {
        Err(ModelError::GraphError(text)) => {
            assert_eq!(text, "Something went wrong with creating a Root node with index 10")
        }
        other => panic!("expected a graph error, got {other:?}"),
    }
    match graph.add_edge(0, 1207) {
        Err(ModelError::GraphError(text)) => {
            assert_eq!(text, "Something went wrong with creating an edge from 0 to 1207")
        }
        other => panic!("expected a graph error, got {other:?}"),
    }
}
