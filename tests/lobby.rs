use chat_backend::lobby::{joined_line, left_line, said_line, welcome_line, Lobby};

#[test]
fn lobby_lines() {
    assert_eq!(welcome_line("1.2.3.4:5"), "Welcome to the chat, 1.2.3.4:5!\n");
    assert_eq!(joined_line("1.2.3.4:5"), "1.2.3.4:5 has joined the chat\n");
    assert_eq!(said_line("1.2.3.4:5", "hello\n"), "1.2.3.4:5 : hello\n");
    assert_eq!(left_line("1.2.3.4:5"), "1.2.3.4:5 has left the chat\n");
}

#[test]
fn lobby_relays_to_everyone_else() {
    let mut lobby: Lobby<char> = Lobby::new();
    lobby.join("a".to_string(), 'a');
    lobby.join("b".to_string(), 'b');
    lobby.join("c".to_string(), 'c');
    let to: Vec<char> = lobby.others_than("b").into_iter().map(|i| *lobby.handle(i)).collect();
    assert_eq!(to, vec!['a', 'c']);
    lobby.leave("a");
    assert_eq!(lobby.len(), 2);
    let to: Vec<char> = lobby.others_than("b").into_iter().map(|i| *lobby.handle(i)).collect();
    assert_eq!(to, vec!['c']);
    lobby.join("c".to_string(), 'z');
    assert_eq!(lobby.len(), 2);
    let to: Vec<char> = lobby.others_than("b").into_iter().map(|i| *lobby.handle(i)).collect();
    assert_eq!(to, vec!['z']);
}
