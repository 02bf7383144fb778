use std::time::Duration;
use tbg::models::dialogue::character_type::CharacterType;
use tbg::models::dialogue::decision::Decision;
use tbg::models::dialogue::dialogue::Dialogue;
use tbg::models::dialogue::dialogue_response::DialogueResponse;

fn create_mock_decision(
    player_id: u32,
    dialogue_id: u32,
    response_id: Option<u32>,
    deliberation_time: Duration,
) -> Decision {
    Decision {
        id: 1, // Mock ID for the decision
        player_id,
        dialogue_id,
        response_id,
        deliberation_time,
    }
}

#[test]
fn test_decision_logging() {
    // Create a mock dialogue using the new constructor
    let dialogue = Dialogue::new(
        1,                                     // ID
        1,                                     // character_id (mock)
        CharacterType::NonPlayerCharacter,     // character_type
        Some(false),                           // Root node flag
        None,                                  // Root node name
        "What do you want to do?".to_string(), // text
        Some(vec![
            DialogueResponse {
                id: 1,
                dialogue_id: 1,
                text: "Fight".to_string(),
                next_id: 2,
            },
            DialogueResponse {
                id: 2,
                dialogue_id: 1,
                text: "Talk".to_string(),
                next_id: 3,
            },
        ]), // responses
        Some(false),                           // no input required
        None,                                  // no input type
        Some(2),                               // next_id
    );

    // Create a mock decision
    let decision = create_mock_decision(1, dialogue.id, Some(1), Duration::new(2, 0));

    // Verify decision logging
    println!("{:?}", decision);

    // Test assertions
    assert_eq!(decision.player_id, 1);
    assert_eq!(decision.dialogue_id, dialogue.id);
    assert_eq!(decision.response_id, Some(1));
    assert_eq!(decision.deliberation_time, Duration::new(2, 0));

    // Check if the dialogue is an "end node"
    assert_eq!(dialogue.is_end_node(), false); // Since it has a next_id, it's not an end node
}

// Test for the is_end_node method on the Dialogue struct
#[test]
fn test_is_end_node() {
    // Case 1: Dialogue with no next_id (end of conversation)
    let dialogue_end = Dialogue {
        id: 1,
        character_id: 1,
        character_type: CharacterType::NonPlayerCharacter,
        root: Some(false),
        root_name: None,
        text: String::from("Welcome to the adventure!"),
        responses: None,
        has_input: Some(true),
        input_type: Some(String::from("string")),
        next_id: None, // No next dialogue, so this is an end node.
    };

    // Assert that this dialogue is the end node
    assert!(
        dialogue_end.is_end_node(),
        "Expected dialogue_end to be an end node"
    );

    // Case 2: Dialogue with a next_id (not the end of the conversation)
    let dialogue_continue = Dialogue {
        id: 2,
        character_id: 1,
        character_type: CharacterType::NonPlayerCharacter,
        root: Some(false),
        root_name: None,
        text: String::from("Do you want to continue?"),
        responses: None,
        has_input: Some(false),
        input_type: None,
        next_id: Some(3), // This dialogue leads to another one, so it's not an end node.
    };

    // Assert that this dialogue is not the end node
    assert!(
        !dialogue_continue.is_end_node(),
        "Expected dialogue_continue to not be an end node"
    );
}
