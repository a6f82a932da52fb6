use rust_patterns::design_pattern::observer_pattern::{
    format_match_info, ConcreteSubject, FoulInfo, GoalInfo, MatchInfo, MobileApp, WebApp,
};

#[test]
fn test_goal_info() {
    // concrete observer
    let mobile_app = MobileApp;

    // state
    let goal_info = GoalInfo {
        scored_by: "Mohammad Salah".to_string(),
        assist_by: Option::from("Trent".to_string()),
    };

    let match_info_goal = MatchInfo::Goal(goal_info);

    let mut concrete_subject = ConcreteSubject {
        observers: Vec::new(),
        match_info: None,
    };

    // subject register observer
    concrete_subject.register(Box::new(mobile_app));

    // subject notify observer about state change
    let shown = concrete_subject.notify(match_info_goal);
    assert_eq!(shown, vec!["Goal scored by Mohammad Salah and assist by Trent.".to_string()]);
}

#[test]
fn test_foul_info() {
    // concrete observer
    let web_app = WebApp;

    // state
    let foul_info = FoulInfo {
        fouled_by: "Son".to_string(),
        card_name: Option::from("yellow".to_string()),
    };

    let match_foul_goal = MatchInfo::Foul(foul_info);

    let mut concrete_subject = ConcreteSubject {
        observers: Vec::new(),
        match_info: None,
    };

    // subject register observer
    concrete_subject.register(Box::new(web_app));

    // subject notify observer about state change
    let shown = concrete_subject.notify(match_foul_goal);
    assert_eq!(shown, vec!["Fouled by Son and yellow card given.".to_string()]);
}

#[test]
fn missing_names_render_as_empty() {
    let goal = MatchInfo::Goal(GoalInfo { scored_by: "Kane".to_string(), assist_by: None });
    assert_eq!(format_match_info(&goal), "Goal scored by Kane and assist by .");
    let foul = MatchInfo::Foul(FoulInfo { fouled_by: "Rice".to_string(), card_name: None });
    assert_eq!(format_match_info(&foul), "Fouled by Rice and  card given.");
}

#[test]
fn every_observer_is_told_in_order() {
    let mut subject = ConcreteSubject { observers: Vec::new(), match_info: None };
    assert!(subject
        .notify(MatchInfo::Goal(GoalInfo { scored_by: "X".to_string(), assist_by: None }))
        .is_empty());
    subject.register(Box::new(MobileApp));
    subject.register(Box::new(WebApp));
    let shown = subject.notify(MatchInfo::Foul(FoulInfo {
        fouled_by: "Son".to_string(),
        card_name: Some("red".to_string()),
    }));
    assert_eq!(shown.len(), 2);
    assert_eq!(shown[0], "Fouled by Son and red card given.");
    assert_eq!(shown[1], "Fouled by Son and red card given.");
}
