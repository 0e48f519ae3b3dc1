use mcp_daemon::config::{ClientConfig, Config, ServerConfig};
use mcp_daemon::tui::{menu_index, App, InputMode, MenuItem};

fn config_with(servers: usize, clients: usize) -> Config {
    let mut c = Config::default();
    for i in 0..servers {
        c.servers.push(ServerConfig::new(format!("s{}", i), format!("ws://h/{}", i)));
    }
    for i in 0..clients {
        c.clients.push(ClientConfig { id: format!("c{}", i), name: format!("client {}", i), allowed_servers: vec![] });
    }
    c
}

#[test]
fn app_labels_servers_and_clients() {
    let app = App::new(config_with(2, 1));
    assert_eq!(app.servers, vec!["s0 (ws://h/0)".to_string(), "s1 (ws://h/1)".to_string()]);
    assert_eq!(app.clients, vec!["client 0 (c0)".to_string()]);
    assert_eq!(app.menu_state, MenuItem::Dashboard);
    assert_eq!(app.input_mode, InputMode::Normal);
    assert_eq!(app.selected_server, Some(0));
    assert!(!app.should_quit);
}

#[test]
fn menu_wraps_both_ways() {
    let mut app = App::new(config_with(0, 0));
    app.previous_menu();
    assert_eq!(app.menu_state, MenuItem::Logs);
    app.next_menu();
    assert_eq!(app.menu_state, MenuItem::Dashboard);
    app.next_menu();
    assert_eq!(menu_index(app.menu_state), 1);
    assert_eq!(menu_index(MenuItem::Logs), 4);
}

#[test]
fn list_selection_wraps_and_ignores_empty_lists() {
    let mut app = App::new(config_with(3, 0));
    app.previous_server();
    assert_eq!(app.selected_server, Some(2));
    app.next_server();
    assert_eq!(app.selected_server, Some(0));
    app.next_server();
    assert_eq!(app.selected_server, Some(1));
    app.next_client();
    assert_eq!(app.selected_client, Some(0));
    app.previous_client();
    assert_eq!(app.selected_client, Some(0));
    app.selected_server = None;
    app.previous_server();
    assert_eq!(app.selected_server, Some(0));
}
