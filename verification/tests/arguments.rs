use mandelbrot_visualizer::command::{
    renderer_arguments, Delivery, Precision, Region, RenderParams, PNG_OUTPUT_PATH,
    RENDERER_PROGRAM, TIFF_OUTPUT_PATH,
};

fn region(re_start: &str, re_end: &str, im_start: &str, im_end: &str) -> Region {
    Region {
        re_start: re_start.to_string(),
        re_end: re_end.to_string(),
        im_start: im_start.to_string(),
        im_end: im_end.to_string(),
    }
}

fn float_region(re_start: f64, re_end: f64, im_start: f64, im_end: f64) -> Region {
    Region {
        re_start: re_start.to_string(),
        re_end: re_end.to_string(),
        im_start: im_start.to_string(),
        im_end: im_end.to_string(),
    }
}

#[test]
fn whole_set_without_mode_or_params() {
    let args = renderer_arguments(None, &float_region(-2.0, 1.0, -1.5, 1.5), Delivery::ExitStatus, None);
    assert_eq!(
        args,
        vec!["-2", "1", "-1.5", "1.5", "./../generated-files/mandelbrot_set.png"]
    );
}

#[test]
fn whole_set_with_standard_mode() {
    let args = renderer_arguments(
        Some(Precision::Standard),
        &float_region(-2.0, 1.0, -1.5, 1.5),
        Delivery::ExitStatus,
        None,
    );
    assert_eq!(
        args,
        vec!["0", "-2", "1", "-1.5", "1.5", "./../generated-files/mandelbrot_set.png"]
    );
}

#[test]
fn full_command_line_of_a_standard_call() {
    let params = RenderParams { max_iter: 1000, palette_length: 256, palette_id: 3 };
    let args = renderer_arguments(
        Some(Precision::Standard),
        &float_region(-0.75, -0.74, 0.1, 0.11),
        Delivery::ExitStatus,
        Some(params),
    );
    assert_eq!(
        args,
        vec![
            "0",
            "-0.75",
            "-0.74",
            "0.1",
            "0.11",
            "./../generated-files/mandelbrot_set.png",
            "1000",
            "256",
            "3",
        ]
    );
}

#[test]
fn full_command_line_of_a_high_precision_call() {
    let params = RenderParams { max_iter: 50000, palette_length: 1024, palette_id: 0 };
    let args = renderer_arguments(
        Some(Precision::High),
        &region(
            "-0.743643887037158704752191506114774",
            "-0.743643887037158704752191506114773",
            "0.131825904205311970493132056385139",
            "0.131825904205311970493132056385140",
        ),
        Delivery::ExitStatus,
        Some(params),
    );
    assert_eq!(
        args,
        vec![
            "1",
            "-0.743643887037158704752191506114774",
            "-0.743643887037158704752191506114773",
            "0.131825904205311970493132056385139",
            "0.131825904205311970493132056385140",
            "./../generated-files/mandelbrot_set.png",
            "50000",
            "1024",
            "0",
        ]
    );
}

#[test]
fn decimal_strings_are_not_rounded_through_a_float() {
    let digits = "0.1000000000000000000000000000000000000000000000000001";
    assert_ne!(digits.parse::<f64>().unwrap().to_string(), digits);
    let args = renderer_arguments(
        Some(Precision::High),
        &region(digits, digits, digits, digits),
        Delivery::ExitStatus,
        None,
    );
    assert_eq!(args[1], digits);
    assert_eq!(args[2], digits);
    assert_eq!(args[3], digits);
    assert_eq!(args[4], digits);
    assert_eq!(args[1].as_bytes(), digits.as_bytes());
}

#[test]
fn any_string_is_forwarded_as_it_is() {
    let args = renderer_arguments(
        Some(Precision::High),
        &region("", " 1e5 ", "not a number", "\u{1d7d9}\u{2044}3 +0"),
        Delivery::ExitStatus,
        None,
    );
    assert_eq!(
        args,
        vec![
            "1",
            "",
            " 1e5 ",
            "not a number",
            "\u{1d7d9}\u{2044}3 +0",
            "./../generated-files/mandelbrot_set.png",
        ]
    );
}

#[test]
fn bounds_are_not_ordered_or_checked() {
    let args = renderer_arguments(None, &float_region(1.0, -2.0, 1.5, -1.5), Delivery::ExitStatus, None);
    assert_eq!(args[..4], ["1", "-2", "1.5", "-1.5"]);
}

#[test]
fn floats_keep_their_value_and_their_place() {
    let values = [
        0.0,
        -0.0,
        0.1,
        1.0 / 3.0,
        -1.7976931348623157e308,
        5e-324,
        2.2250738585072014e-308,
        -0.743643887037151,
        123456789.12345679,
        1e21,
        f64::EPSILON,
    ];
    for (i, &a) in values.iter().enumerate() {
        let b = values[(i + 1) % values.len()];
        let c = values[(i + 2) % values.len()];
        let d = values[(i + 3) % values.len()];
        let args = renderer_arguments(None, &float_region(a, b, c, d), Delivery::ExitStatus, None);
        assert_eq!(args.len(), 5);
        for (arg, value) in args[..4].iter().zip([a, b, c, d]) {
            let back: f64 = arg.parse().unwrap();
            assert_eq!(back.to_bits(), value.to_bits());
        }
    }
}

#[test]
fn params_stand_after_the_output_path() {
    let params = RenderParams { max_iter: 1, palette_length: 2, palette_id: 3 };
    for mode in [None, Some(Precision::Standard), Some(Precision::High)] {
        let args = renderer_arguments(
            mode,
            &region("a", "b", "c", "d"),
            Delivery::InlineImage,
            Some(params),
        );
        let path_at = args.iter().position(|arg| arg == TIFF_OUTPUT_PATH).unwrap();
        assert_eq!(path_at, if mode.is_some() { 5 } else { 4 });
        assert_eq!(args[path_at + 1..], ["1", "2", "3"]);
    }
}

#[test]
fn params_may_be_negative_or_extreme() {
    let params = RenderParams { max_iter: i32::MAX, palette_length: i32::MIN, palette_id: -1 };
    let args = renderer_arguments(None, &region("0", "0", "0", "0"), Delivery::ExitStatus, Some(params));
    assert_eq!(args[5..], ["2147483647", "-2147483648", "-1"]);
}

#[test]
fn output_path_is_last_without_params() {
    for mode in [None, Some(Precision::Standard), Some(Precision::High)] {
        let args = renderer_arguments(mode, &region("a", "b", "c", "d"), Delivery::ExitStatus, None);
        assert_eq!(args.last().unwrap(), PNG_OUTPUT_PATH);
        assert_eq!(args.len(), if mode.is_some() { 6 } else { 5 });
    }
}

#[test]
fn inline_delivery_names_the_tiff_file() {
    let args =
        renderer_arguments(None, &float_region(-2.0, 1.0, -1.5, 1.5), Delivery::InlineImage, None);
    assert_eq!(args, vec!["-2", "1", "-1.5", "1.5", "./mandelbrot_set.tiff"]);
}

#[test]
fn mode_flags() {
    assert_eq!(Precision::Standard.mode_flag(), "0");
    assert_eq!(Precision::High.mode_flag(), "1");
}

#[test]
fn fixed_paths() {
    assert_eq!(RENDERER_PROGRAM, "./MandelbrotSetParallelOpenCL.exe");
    assert_eq!(PNG_OUTPUT_PATH, "./../generated-files/mandelbrot_set.png");
    assert_eq!(TIFF_OUTPUT_PATH, "./mandelbrot_set.tiff");
    assert_eq!(Delivery::ExitStatus.output_path(), "./../generated-files/mandelbrot_set.png");
    assert_eq!(Delivery::InlineImage.output_path(), "./mandelbrot_set.tiff");
}
