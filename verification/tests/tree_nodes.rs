use pob_egui::colors::Rgb;
use pob_egui::tree_nodes::{
    click_action, frame_for, header_for, next_search_cycle, node_type_color, search_status, ClickAction,
    NodeFrame, NodeType, TooltipHeader,
};

#[test]
fn frames_by_type_and_state() {
    assert_eq!(frame_for(NodeType::Normal, true), NodeFrame::NormalAllocated);
    assert_eq!(frame_for(NodeType::ClassStart, false), NodeFrame::NormalUnallocated);
    assert_eq!(frame_for(NodeType::AscendClassStart, true), NodeFrame::NormalAllocated);
    assert_eq!(frame_for(NodeType::Notable, false), NodeFrame::NotableUnallocated);
    assert_eq!(frame_for(NodeType::Keystone, true), NodeFrame::KeystoneAllocated);
    assert_eq!(frame_for(NodeType::Socket, false), NodeFrame::JewelUnallocated);
    assert_eq!(frame_for(NodeType::Mastery, true), NodeFrame::MasteryAllocated);
}

#[test]
fn tooltip_headers() {
    assert_eq!(header_for(NodeType::Normal, false, false), TooltipHeader::Passive);
    assert_eq!(header_for(NodeType::Normal, true, false), TooltipHeader::Ascendancy);
    assert_eq!(header_for(NodeType::Notable, true, true), TooltipHeader::Notable);
    assert_eq!(header_for(NodeType::Socket, false, true), TooltipHeader::Jewel);
    assert_eq!(header_for(NodeType::Mastery, false, false), TooltipHeader::Mastery);
    assert_eq!(header_for(NodeType::Mastery, false, true), TooltipHeader::MasteryAllocated);
    assert_eq!(header_for(NodeType::ClassStart, true, true), TooltipHeader::Passive);
}

#[test]
fn fallback_colours() {
    assert_eq!(node_type_color(NodeType::Normal), Rgb::new(120, 120, 120));
    assert_eq!(node_type_color(NodeType::Keystone), Rgb::new(220, 160, 60));
    assert_eq!(node_type_color(NodeType::AscendClassStart), Rgb::new(200, 200, 200));
}

#[test]
fn search_cycle_wraps() {
    use_search();
}

fn use_search() {
    assert_eq!(next_search_cycle(None, 4, true), Some(0));
    assert_eq!(next_search_cycle(None, 4, false), Some(3));
    assert_eq!(next_search_cycle(Some(3), 4, true), Some(0));
    assert_eq!(next_search_cycle(Some(0), 4, false), Some(3));
    assert_eq!(next_search_cycle(Some(1), 4, true), Some(2));
    assert_eq!(next_search_cycle(Some(9), 4, true), Some(2));
    assert_eq!(next_search_cycle(Some(usize::MAX), 4, false), Some(2));
    assert_eq!(search_status(7, Some(2)), "3 / 7 matches");
    assert_eq!(search_status(7, None), "7 matches");
    assert_eq!(search_status(0, None), "0 matches");
}

#[test]
fn clicks_on_the_tree() {
    assert_eq!(click_action(Some(NodeType::Socket), false, true), ClickAction::OpenItems);
    assert_eq!(click_action(Some(NodeType::Socket), false, false), ClickAction::Toggle);
    assert_eq!(click_action(Some(NodeType::Mastery), false, false), ClickAction::ChooseMastery);
    assert_eq!(click_action(Some(NodeType::Mastery), true, true), ClickAction::ChooseMastery);
    assert_eq!(click_action(Some(NodeType::Mastery), true, false), ClickAction::Toggle);
    assert_eq!(click_action(Some(NodeType::Notable), true, true), ClickAction::Ignore);
    assert_eq!(click_action(None, true, false), ClickAction::Toggle);
}
