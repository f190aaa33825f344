use esp_sgp41_voc_nox::led::{
    Led, LedCommand, LedDriver, LedSignal, CYCLE_HOLD_MS, HUE_STEP,
};
use esp_sgp41_voc_nox::tasks::led::{
    led_task, IndicatorActivity, DEFAULT_BLINK_PERIOD_MS, LED_QUEUE_CAPACITY,
};
use esp_sgp41_voc_nox::tasks::{Action, Event};

#[test]
fn lamp_is_on_for_any_brightness_above_zero() {
    let mut led = Led::new_gpio();
    assert_eq!(led.driver, LedDriver::Gpio);
    assert_eq!(led.set_color(1), LedSignal::Level(true));
    assert_eq!(led.set_color(255), LedSignal::Level(true));
    assert_eq!(led.set_color(0), LedSignal::Level(false));
    assert_eq!(led, Led::new_gpio());
}

#[test]
fn lamp_drops_a_colour() {
    let led = Led::new_gpio();
    assert_eq!(led.set_color_rgb(30, 0, 0), None);
}

#[test]
fn pixel_starts_red_and_walks_the_wheel() {
    let mut led = Led::new_ws2812();
    assert_eq!(led.hue, 0);
    assert_eq!(led.set_color(255), LedSignal::Color(255, 0, 0));
    assert_eq!(led.hue, 15);
    assert_eq!(led.set_color(255), LedSignal::Color(255, 90, 0));
    assert_eq!(led.hue, 30);
    assert_eq!(led.set_color(50), LedSignal::Color(50, 35, 0));
    assert_eq!(led.hue, 45);
    assert_eq!(led.set_color(255), LedSignal::Color(240, 255, 0));
}

#[test]
fn pixel_hue_wraps_round() {
    let mut led = Led::new_ws2812();
    for _ in 0..17 {
        led.set_color(10);
    }
    assert_eq!(led.hue, 255);
    assert_eq!(led.set_color(255), LedSignal::Color(255, 0, 0));
    assert_eq!(led.hue, 14);
    assert_eq!(HUE_STEP, 15);
}

#[test]
fn pixel_goes_black_and_keeps_its_hue() {
    let mut led = Led { driver: LedDriver::Ws2812, hue: 240 };
    assert_eq!(led.set_color(0), LedSignal::Color(0, 0, 0));
    assert_eq!(led.hue, 240);
    assert_eq!(led.set_color(255), LedSignal::Color(255, 0, 90));
    assert_eq!(led.hue, 255);
}

#[test]
fn pixel_takes_a_colour_as_it_is() {
    let led = Led::new_ws2812();
    assert_eq!(led.set_color_rgb(21, 27, 28), Some(LedSignal::Color(21, 27, 28)));
    assert_eq!(led.hue, 0);
}

#[test]
fn cycle_holds_each_colour_for_half_a_second() {
    let mut pixel = Led::new_ws2812();
    assert_eq!(pixel.cycle_color(255), (LedSignal::Color(255, 0, 0), 500));
    assert_eq!(pixel.hue, 15);
    assert_eq!(pixel.cycle_color(0), (LedSignal::Color(0, 0, 0), 500));
    assert_eq!(pixel.hue, 15);
    let mut lamp = Led::new_gpio();
    assert_eq!(lamp.cycle_color(9), (LedSignal::Level(true), CYCLE_HOLD_MS));
    assert_eq!(lamp.cycle_color(0), (LedSignal::Level(false), CYCLE_HOLD_MS));
}

#[test]
fn indicator_asks_for_an_intent_first() {
    let mut activity = IndicatorActivity::new();
    assert_eq!(activity, IndicatorActivity::Idle);
    assert_eq!(led_task(&mut activity, Event::Done), Action::Receive);
    assert_eq!(activity, IndicatorActivity::Receiving);
}

#[test]
fn indicator_shows_a_solid_colour_at_once() {
    let mut activity = IndicatorActivity::Receiving;
    let action = led_task(&mut activity, Event::Intent(LedCommand::Solid(30, 0, 30)));
    assert_eq!(action, Action::SetColor(30, 0, 30));
    assert_eq!(led_task(&mut activity, Event::Done), Action::Receive);
    assert_eq!(activity, IndicatorActivity::Receiving);
}

#[test]
fn indicator_blinks_once_with_the_default_period() {
    let mut activity = IndicatorActivity::Receiving;
    let action = led_task(&mut activity, Event::Intent(LedCommand::Blink(21, 27, 28, None)));
    assert_eq!(action, Action::SetColor(0, 0, 0));
    assert_eq!(activity, IndicatorActivity::Darkening(21, 27, 28, 300));
    assert_eq!(led_task(&mut activity, Event::Done), Action::Sleep(300));
    assert_eq!(led_task(&mut activity, Event::Done), Action::SetColor(21, 27, 28));
    assert_eq!(led_task(&mut activity, Event::Done), Action::Receive);
    assert_eq!(activity, IndicatorActivity::Receiving);
    assert_eq!(DEFAULT_BLINK_PERIOD_MS, 300);
}

#[test]
fn indicator_blinks_with_the_period_of_the_intent() {
    let mut activity = IndicatorActivity::Receiving;
    let action = led_task(&mut activity, Event::Intent(LedCommand::Blink(1, 2, 3, Some(65535))));
    assert_eq!(action, Action::SetColor(0, 0, 0));
    assert_eq!(led_task(&mut activity, Event::Failed), Action::Sleep(65535));
    assert_eq!(led_task(&mut activity, Event::Failed), Action::SetColor(1, 2, 3));
    assert_eq!(led_task(&mut activity, Event::Failed), Action::Receive);
}

#[test]
fn indicator_with_period_zero_still_goes_dark_first() {
    let mut activity = IndicatorActivity::Receiving;
    let action = led_task(&mut activity, Event::Intent(LedCommand::Blink(9, 9, 9, Some(0))));
    assert_eq!(action, Action::SetColor(0, 0, 0));
    assert_eq!(led_task(&mut activity, Event::Done), Action::Sleep(0));
    assert_eq!(led_task(&mut activity, Event::Done), Action::SetColor(9, 9, 9));
}

#[test]
fn indicator_asks_again_when_no_intent_came() {
    let mut activity = IndicatorActivity::Receiving;
    assert_eq!(led_task(&mut activity, Event::Done), Action::Receive);
    assert_eq!(led_task(&mut activity, Event::Flag(true)), Action::Receive);
    assert_eq!(led_task(&mut activity, Event::Data(vec![1, 2, 3])), Action::Receive);
    assert_eq!(activity, IndicatorActivity::Receiving);
}

#[test]
fn indicator_carries_out_intents_in_the_order_taken() {
    let mut activity = IndicatorActivity::new();
    let intents = [
        LedCommand::Solid(30, 0, 0),
        LedCommand::Blink(30, 30, 0, None),
        LedCommand::Solid(0, 30, 0),
    ];
    let mut shown = Vec::new();
    let mut event = Event::Done;
    let mut taken = 0;
    loop {
        match led_task(&mut activity, event) {
            Action::Receive => {
                if taken == intents.len() {
                    break;
                }
                event = Event::Intent(intents[taken]);
                taken += 1;
            }
            Action::SetColor(r, g, b) => {
                shown.push((r, g, b));
                event = Event::Done;
            }
            Action::Sleep(ms) => {
                assert_eq!(ms, 300);
                event = Event::Done;
            }
            other => panic!("unexpected action {:?}", other),
        }
    }
    assert_eq!(shown, vec![(30, 0, 0), (0, 0, 0), (30, 30, 0), (0, 30, 0)]);
}

#[test]
fn queue_holds_four_intents() {
    assert_eq!(LED_QUEUE_CAPACITY, 4);
}

#[test]
fn lit_colour_moves_the_hue_on() {
    let mut led = Led { driver: LedDriver::Ws2812, hue: 250 };
    assert_eq!(led.show_lit((1, 2, 3)), LedSignal::Color(1, 2, 3));
    assert_eq!(led.hue, 9);
    assert_eq!(led.driver, LedDriver::Ws2812);
}
