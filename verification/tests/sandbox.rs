use print_bot::printer::{Bitmap, PrinterMsg, PRINTER_DOTS_PER_LINE};
use print_bot::sandbox::{
    bits_to_bitmap, deliver, print_res, value_to_string, Budget, Delivery, Outcome, Sandbox,
    ScriptError, ScriptValue,
};
use print_bot::time_range::{LocalClock, TimeOfDay};

#[test]
fn text_budget_of_eleven_takes_five_and_five_then_refuses() {
    let sandbox = Sandbox::new(None, Some(11), None);
    let mut run = sandbox.begin("script");
    assert_eq!(run.emit_text("12345".to_string()), Ok(PrinterMsg::Text("12345".to_string())));
    assert_eq!(run.remaining_text_bytes(), 6);
    assert_eq!(run.emit_text("abcde".to_string()), Ok(PrinterMsg::Text("abcde".to_string())));
    assert_eq!(run.remaining_text_bytes(), 1);
    assert_eq!(run.emit_text("x".to_string()), Err(ScriptError::TextLimit));
    assert_eq!(run.remaining_text_bytes(), 0);
    assert_eq!(run.emit_text("".to_string()), Err(ScriptError::TextLimit));

    let again = sandbox.begin("script");
    assert_eq!(again.remaining_text_bytes(), 11);
}

#[test]
fn text_budget_of_ten_is_spent_by_the_tenth_byte() {
    let sandbox = Sandbox::new(None, Some(10), None);
    let mut run = sandbox.begin("script");
    assert_eq!(run.emit_text("12345".to_string()), Ok(PrinterMsg::Text("12345".to_string())));
    // The second five bytes leave nothing, and a budget must be left over
    // for the text to pass.
    assert_eq!(run.emit_text("abcde".to_string()), Err(ScriptError::TextLimit));
    assert_eq!(run.remaining_text_bytes(), 0);
    assert_eq!(run.emit_text("x".to_string()), Err(ScriptError::TextLimit));
    assert_eq!(run.remaining_text_bytes(), -1);

    let fresh = sandbox.begin("script");
    assert_eq!(fresh.remaining_text_bytes(), 10);
}

#[test]
fn text_is_charged_by_its_bytes() {
    let sandbox = Sandbox::new(None, Some(7), None);
    let mut run = sandbox.begin("");
    assert_eq!(run.emit_text("éé".to_string()), Ok(PrinterMsg::Text("éé".to_string())));
    assert_eq!(run.remaining_text_bytes(), 3);
    assert_eq!(run.emit_text("€".to_string()), Err(ScriptError::TextLimit));
    assert_eq!(run.remaining_text_bytes(), 0);
}

#[test]
fn budgets_do_not_touch_each_other() {
    let sandbox = Sandbox::new(Some(9), Some(100), Some(1000));
    let mut run = sandbox.begin("x");
    assert_eq!(run.hook_interval(), 9);
    assert!(run.emit_text("hello".to_string()).is_ok());
    assert_eq!(run.remaining_text_bytes(), 95);
    assert_eq!(run.remaining_image_bytes(), 1000);
    assert!(run.emit_image(vec![true; 384]).is_ok());
    assert_eq!(run.remaining_text_bytes(), 95);
    assert_eq!(run.remaining_image_bytes(), 616);
    assert_eq!(run.script(), "x");
    assert_eq!(run.hook_interval(), 9);
}

#[test]
fn limits_default_to_the_largest() {
    let sandbox = Sandbox::new(None, None, None);
    assert_eq!(sandbox.max_instructions, u32::MAX);
    assert_eq!(sandbox.max_bytes_text, u32::MAX);
    assert_eq!(sandbox.max_bytes_image, u32::MAX);
    let run = sandbox.begin("");
    assert_eq!(run.remaining_text_bytes(), 4_294_967_295);
    assert_eq!(run.remaining_image_bytes(), 4_294_967_295);
    assert_eq!(run.hook_interval(), u32::MAX);
}

#[test]
fn budget_counts_down_and_stays_spent() {
    let mut budget = Budget::new(3);
    assert_eq!(budget.remaining(), 3);
    assert!(budget.charge(2));
    assert_eq!(budget.remaining(), 1);
    assert!(!budget.charge(1));
    assert_eq!(budget.remaining(), 0);
    assert!(!budget.charge(0));
    assert!(!budget.charge(5));
    assert_eq!(budget.remaining(), -5);
    assert!(!budget.charge(usize::MAX));
    assert!(!budget.charge(usize::MAX));
    assert!(budget.remaining() < 0);
    let mut empty = Budget::new(0);
    assert!(!empty.charge(0));
}

#[test]
fn budget_stops_at_the_least_integer() {
    let mut budget = Budget::new(0);
    let mut spent: i128 = 0;
    while spent > i64::MIN as i128 {
        assert!(!budget.charge(usize::MAX));
        spent -= usize::MAX as i128;
        let expected = if spent < i64::MIN as i128 { i64::MIN as i128 } else { spent };
        assert_eq!(budget.remaining() as i128, expected);
    }
    assert_eq!(budget.remaining(), i64::MIN);
    assert!(!budget.charge(1));
    assert_eq!(budget.remaining(), i64::MIN);
}

#[test]
fn image_is_charged_before_its_width_is_checked() {
    let sandbox = Sandbox::new(None, None, Some(1000));
    let mut run = sandbox.begin("");
    assert_eq!(run.emit_image(vec![false; 100]), Err(ScriptError::ImageWidth));
    assert_eq!(run.remaining_image_bytes(), 900);
    let job = run.emit_image(vec![true; 768]).unwrap();
    assert_eq!(run.remaining_image_bytes(), 132);
    match job {
        PrinterMsg::Image(bitmap) => {
            assert_eq!(bitmap.width, 384);
            assert_eq!(bitmap.height, 2);
            assert_eq!(bitmap.data, vec![0u8; 768 * 3]);
        }
        other => panic!("not an image: {:?}", other),
    }
    assert_eq!(run.emit_image(vec![true; 384]), Err(ScriptError::ImageLimit));
    assert_eq!(run.remaining_image_bytes(), -252);
    // Out of budget, the width no longer matters.
    assert_eq!(run.emit_image(vec![true; 5]), Err(ScriptError::ImageLimit));
}

#[test]
fn image_that_spends_the_last_dot_is_refused() {
    let sandbox = Sandbox::new(None, None, Some(384));
    let mut run = sandbox.begin("");
    assert_eq!(run.emit_image(vec![true; 384]), Err(ScriptError::ImageLimit));
    let sandbox = Sandbox::new(None, None, Some(385));
    let mut run = sandbox.begin("");
    assert!(run.emit_image(vec![true; 384]).is_ok());
}

#[test]
fn bits_become_black_and_white_pixels() {
    let mut bits = vec![false; 384];
    bits[0] = true;
    bits[383] = true;
    let bitmap = bits_to_bitmap(&bits).unwrap();
    assert_eq!(bitmap.width, PRINTER_DOTS_PER_LINE);
    assert_eq!(bitmap.height, 1);
    assert_eq!(bitmap.data.len(), 384 * 3);
    assert_eq!(&bitmap.data[0..6], &[0, 0, 0, 255, 255, 255]);
    assert_eq!(&bitmap.data[382 * 3..], &[255, 255, 255, 0, 0, 0]);
}

#[test]
fn bits_must_fill_whole_lines() {
    assert_eq!(bits_to_bitmap(&vec![true; 383]), Err(ScriptError::ImageWidth));
    assert_eq!(bits_to_bitmap(&vec![true; 385]), Err(ScriptError::ImageWidth));
    assert_eq!(bits_to_bitmap(&vec![true; 1]), Err(ScriptError::ImageWidth));
    let empty = bits_to_bitmap(&vec![]).unwrap();
    assert_eq!(empty, Bitmap { width: 384, height: 0, data: vec![] });
}

#[test]
fn bitmap_from_raw_wants_three_bytes_a_pixel() {
    assert_eq!(
        Bitmap::from_raw(2, 1, vec![1, 2, 3, 4, 5, 6]),
        Some(Bitmap { width: 2, height: 1, data: vec![1, 2, 3, 4, 5, 6] })
    );
    assert_eq!(Bitmap::from_raw(2, 1, vec![1, 2, 3, 4, 5]), None);
    assert_eq!(Bitmap::from_raw(2, 1, vec![1, 2, 3, 4, 5, 6, 7]), None);
    assert_eq!(Bitmap::from_raw(0, 7, vec![]), Some(Bitmap { width: 0, height: 7, data: vec![] }));
    assert_eq!(Bitmap::from_raw(u32::MAX, u32::MAX, vec![]), None);
}

#[test]
fn code_fence_is_stripped() {
    let sandbox = Sandbox::new(None, None, None);
    assert_eq!(sandbox.begin("```lua\nprint(1)\n```").script(), "\nprint(1)");
    assert_eq!(sandbox.begin("```print(1)```").script(), "print(1)");
    assert_eq!(sandbox.begin("\n ```lua print(1) ```").script(), " print(1)");
    assert_eq!(sandbox.begin(" print(1) ").script(), "print(1)");
    assert_eq!(sandbox.begin("```lua```lua x").script(), " x");
    assert_eq!(sandbox.begin("``````x``````").script(), "x");
    assert_eq!(sandbox.begin("```luau```").script(), "u");
    assert_eq!(sandbox.begin("x ```").script(), "x");
    assert_eq!(sandbox.begin("``x``").script(), "``x``");
    assert_eq!(sandbox.begin("").script(), "");
    assert_eq!(sandbox.begin("```").script(), "");
    assert_eq!(sandbox.begin("```lua").script(), "");
}

#[test]
fn code_fence_is_only_stripped_at_the_very_ends() {
    let sandbox = Sandbox::new(None, None, None);
    // White space after the closing fence keeps the fence.
    assert_eq!(sandbox.begin("```print(1)```  ").script(), "print(1)```");
    assert_eq!(sandbox.begin("x ``` ").script(), "x ```");
    assert_eq!(sandbox.begin("``````x``````\n").script(), "x``````");
    assert_eq!(
        sandbox.begin("\u{2003}\t```lua return 1 ```\u{a0}\n").script(),
        " return 1 ```"
    );
    for text in ["```lua\nprint(1)\n```", " ```x``` ", "a```b", "```lua ```lua", "\t```\t"] {
        let expected = text
            .trim_start()
            .trim_start_matches("```lua")
            .trim_start_matches("```")
            .trim_end_matches("```")
            .trim_end();
        assert_eq!(sandbox.begin(text).script(), expected, "{:?}", text);
    }
}

#[test]
fn values_are_written_by_kind() {
    assert_eq!(value_to_string(&ScriptValue::Nil), "nil");
    assert_eq!(value_to_string(&ScriptValue::Boolean(true)), "true");
    assert_eq!(value_to_string(&ScriptValue::Boolean(false)), "false");
    assert_eq!(value_to_string(&ScriptValue::Integer(0)), "0");
    assert_eq!(value_to_string(&ScriptValue::Integer(42)), "42");
    assert_eq!(value_to_string(&ScriptValue::Integer(-7)), "-7");
    assert_eq!(value_to_string(&ScriptValue::Integer(i64::MAX)), "9223372036854775807");
    assert_eq!(value_to_string(&ScriptValue::Integer(i64::MIN)), "-9223372036854775808");
    assert_eq!(value_to_string(&ScriptValue::Number("1.5".to_string())), "1.5");
    assert_eq!(value_to_string(&ScriptValue::Str(Some("hi".to_string()))), "\"hi\"");
    assert_eq!(value_to_string(&ScriptValue::Str(Some(String::new()))), "\"\"");
    assert_eq!(value_to_string(&ScriptValue::Str(None)), "\"\"");
    assert_eq!(value_to_string(&ScriptValue::Other("Table(Ref(1))".to_string())), "Table(Ref(1))");
}

#[test]
fn outcome_becomes_lines() {
    let sandbox = Sandbox::new(None, None, None);
    let values = vec![
        ScriptValue::Integer(1),
        ScriptValue::Str(Some("two".to_string())),
        ScriptValue::Nil,
    ];
    assert_eq!(
        sandbox.begin("").finish(Outcome::Values(values)),
        vec!["1".to_string(), "\"two\"".to_string(), "nil".to_string()]
    );
    assert_eq!(sandbox.begin("").finish(Outcome::Values(vec![])), Vec::<String>::new());
    assert_eq!(
        sandbox.begin("").finish(Outcome::ScriptRuntimeError("syntax error near x".to_string())),
        vec!["Error: syntax error near x".to_string()]
    );
    assert_eq!(
        sandbox.begin("").finish(Outcome::HostCallbackError("Text byte limit reached".to_string())),
        vec!["Text byte limit reached".to_string()]
    );
    assert_eq!(
        sandbox.begin("").finish(Outcome::InstructionLimitExceeded),
        vec!["Instruction limit reached".to_string()]
    );
}

#[test]
fn step_hook_always_stops_the_script() {
    let sandbox = Sandbox::new(Some(1000), None, None);
    let run = sandbox.begin("while true do end");
    assert_eq!(run.hook_interval(), 1000);
    assert_eq!(run.step_hook(), ScriptError::InstructionLimit);
    assert_eq!(run.step_hook(), ScriptError::InstructionLimit);
    assert_eq!(
        run.finish(Outcome::InstructionLimitExceeded),
        vec!["Instruction limit reached".to_string()]
    );
}

#[test]
fn script_error_messages() {
    assert_eq!(ScriptError::TextLimit.message(), "Text byte limit reached");
    assert_eq!(ScriptError::ImageLimit.message(), "Image byte limit reached");
    assert_eq!(ScriptError::InstructionLimit.message(), "Instruction limit reached");
    assert_eq!(ScriptError::ImageWidth.message(), "Err: Img width != 384");
    assert_eq!(ScriptError::ImageTooLarge.message(), "Failed to create rgb image");
}

fn clock(hour: u32, minute: u32, second: u32) -> LocalClock {
    LocalClock { time: TimeOfDay { hour, minute, second, nano: 123 }, utc_offset: 7200 }
}

#[test]
fn jobs_go_to_the_printer_if_there_is_one() {
    let text = PrinterMsg::Text("hi".to_string());
    assert_eq!(deliver(true, text.clone(), clock(1, 2, 3)), Delivery::Printer(text.clone()));
    assert_eq!(print_res(true, text.clone()), Delivery::Printer(text));
    let image = PrinterMsg::Image(Bitmap { width: 1, height: 1, data: vec![0, 0, 0] });
    assert_eq!(deliver(true, image.clone(), clock(1, 2, 3)), Delivery::Printer(image.clone()));
    assert_eq!(print_res(true, image.clone()), Delivery::Printer(image));
}

#[test]
fn without_printer_text_becomes_a_note() {
    let text = PrinterMsg::Text("hi".to_string());
    assert_eq!(
        deliver(false, text.clone(), clock(1, 2, 3)),
        Delivery::Note("Lua text: hi".to_string())
    );
    assert_eq!(print_res(false, text), Delivery::Note("Lua text: hi".to_string()));
}

#[test]
fn without_printer_an_image_is_saved_under_the_time() {
    let bitmap = Bitmap { width: 384, height: 12, data: vec![7; 384 * 12 * 3] };
    assert_eq!(
        deliver(false, PrinterMsg::Image(bitmap.clone()), clock(9, 5, 0)),
        Delivery::Save {
            path: "lua-09-05-00.png".to_string(),
            note: "Lua image 384x12: lua-09-05-00.png".to_string(),
            image: bitmap.clone(),
        }
    );
    assert_eq!(
        deliver(false, PrinterMsg::Image(bitmap.clone()), clock(23, 59, 58)),
        Delivery::Save {
            path: "lua-23-59-58.png".to_string(),
            note: "Lua image 384x12: lua-23-59-58.png".to_string(),
            image: bitmap.clone(),
        }
    );
    match print_res(false, PrinterMsg::Image(bitmap.clone())) {
        Delivery::Save { path, note, image } => {
            assert_eq!(image, bitmap);
            assert_eq!(path.len(), "lua-00-00-00.png".len());
            assert!(path.starts_with("lua-"));
            assert!(path.ends_with(".png"));
            assert_eq!(note, format!("Lua image 384x12: {}", path));
        }
        other => panic!("not saved: {:?}", other),
    }
}
