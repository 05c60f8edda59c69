use monad_quad::component::Component;
use monad_quad::context::Context;
use monad_quad::ui::{Ui, UiResponse, UiWidget};
use monad_quad::widgets::button::{Button, ButtonProperties};
use monad_quad::widgets::checkbox::{CheckBox, CheckboxProperties};
use monad_quad::widgets::combo_box::{ComboBox, ComboBoxProperties};
use monad_quad::widgets::group::{Group, GroupProperties};
use monad_quad::widgets::input::{Input, InputProperties};
use monad_quad::widgets::label::{Label, LabelProperties};
use monad_quad::widgets::window::{Window, WindowProperties};

fn ctx() -> Context {
    Context::new(1_000_000, 1_000_000, 1_000_000, 1_000_000, 16_000, 0, 0, vec![])
}

#[test]
fn button_runs_its_handler_only_when_clicked() {
    let mut button = Button {
        on_click: |props: &ButtonProperties<i64>| ButtonProperties {
            size: props.size,
            selected: props.selected,
            position: props.position,
            extra_data: props.extra_data + 1,
            label: props.label.clone(),
        },
    };
    let mut props = ButtonProperties {
        size: (100, 40),
        selected: false,
        position: (10, 10),
        extra_data: 0i64,
        label: String::from("start"),
    };
    let context = ctx();

    let mut clicked_ui = Ui::new(vec![UiResponse::Clicked]);
    button.ui(&context, &mut clicked_ui, &mut props);
    assert_eq!(props.extra_data, 1);

    let mut idle_ui = Ui::new(vec![UiResponse::Nothing]);
    button.ui(&context, &mut idle_ui, &mut props);
    assert_eq!(props.extra_data, 1);

    match &clicked_ui.widgets()[0] {
        UiWidget::Button { label, w, h, .. } => {
            assert_eq!(label, "start");
            assert_eq!((*w, *h), (100, 40));
        },
        other => panic!("unexpected widget {:?}", other),
    }
}

#[test]
fn checkbox_takes_the_users_value() {
    let mut checkbox = CheckBox;
    let mut props = CheckboxProperties { state: false, label: String::from("fullscreen") };
    let context = ctx();

    let mut ui = Ui::new(vec![UiResponse::SetBool(true)]);
    checkbox.ui(&context, &mut ui, &mut props);
    assert!(props.state);

    let mut silent_ui = Ui::new(vec![]);
    checkbox.ui(&context, &mut silent_ui, &mut props);
    assert!(props.state);
}

#[test]
fn combo_box_takes_the_users_choice() {
    let mut combo = ComboBox;
    let mut props = ComboBoxProperties {
        label: String::from("resolution"),
        variants: vec![String::from("720p"), String::from("1080p")],
        chosen: Some(0),
    };
    let context = ctx();
    let mut ui = Ui::new(vec![UiResponse::SetChoice(Some(1))]);
    combo.ui(&context, &mut ui, &mut props);
    assert_eq!(props.chosen, Some(1));
    match &ui.widgets()[0] {
        UiWidget::ComboBox { variants, chosen, .. } => {
            assert_eq!(variants.len(), 2);
            assert_eq!(*chosen, Some(0));
        },
        other => panic!("unexpected widget {:?}", other),
    }
}

#[test]
fn input_takes_the_users_text() {
    let mut input = Input;
    let mut props = InputProperties {
        is_password: false,
        label: String::from("name"),
        data: String::from("old"),
    };
    let context = ctx();
    let mut ui = Ui::new(vec![UiResponse::SetText(String::from("new"))]);
    input.ui(&context, &mut ui, &mut props);
    assert_eq!(props.data, "new");

    let mut silent_ui = Ui::new(vec![UiResponse::Nothing]);
    input.ui(&context, &mut silent_ui, &mut props);
    assert_eq!(props.data, "new");
}

#[test]
fn label_declares_without_consuming_responses() {
    let mut label = Label;
    let mut props = LabelProperties { location: (5, 6), label: String::from("hello") };
    let context = ctx();
    let mut ui = Ui::new(vec![UiResponse::Clicked]);
    label.ui(&context, &mut ui, &mut props);
    // The click is still pending for the next interactive widget.
    let mut button = Button {
        on_click: |props: &ButtonProperties<i64>| ButtonProperties {
            size: props.size,
            selected: props.selected,
            position: props.position,
            extra_data: props.extra_data + 1,
            label: props.label.clone(),
        },
    };
    let mut bprops = ButtonProperties {
        size: (10, 10),
        selected: false,
        position: (0, 0),
        extra_data: 0i64,
        label: String::from("ok"),
    };
    button.ui(&context, &mut ui, &mut bprops);
    assert_eq!(bprops.extra_data, 1);
}

#[test]
fn window_and_group_wrap_their_children() {
    let checkbox_in_window = Window::new::<CheckboxProperties>(7, CheckBox);
    let mut window = checkbox_in_window;
    let mut wprops = WindowProperties {
        location: (1, 2),
        size: (300, 200),
        label: Some(String::from("settings")),
        title_bar: true,
        extra_data: CheckboxProperties { state: false, label: String::from("flag") },
        moveable: true,
        close_button: false,
    };
    let context = ctx();
    let mut ui = Ui::new(vec![UiResponse::SetBool(true)]);
    window.ui(&context, &mut ui, &mut wprops);
    assert!(wprops.extra_data.state);
    let widgets = ui.widgets();
    assert!(matches!(widgets[0], UiWidget::WindowBegin { id: 7, .. }));
    assert!(matches!(widgets[1], UiWidget::Checkbox { .. }));
    assert!(matches!(widgets[2], UiWidget::WindowEnd));

    let mut group = Group { child: CheckBox };
    let mut gprops = GroupProperties {
        size: (50, 50),
        extra_data: CheckboxProperties { state: true, label: String::from("inner") },
    };
    let mut group_ui = Ui::new(vec![UiResponse::SetBool(false)]);
    group.ui(&context, &mut group_ui, &mut gprops);
    assert!(!gprops.extra_data.state);
    assert!(matches!(group_ui.widgets()[0], UiWidget::GroupBegin { w: 50, h: 50 }));
    assert!(matches!(group_ui.widgets()[2], UiWidget::GroupEnd));
}
