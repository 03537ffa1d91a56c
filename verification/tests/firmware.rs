use edge_stream::cell::SharedCell;
use edge_stream::dac::DacConfig;
use edge_stream::dac::DacTrigger;
use edge_stream::dma::SampleBuffer;
use edge_stream::dma::TransferDirection;
use edge_stream::dma::TransferWidth;
use edge_stream::dma::DmaConfig;
use edge_stream::dma::DMA_BUFFER_LEN;
use edge_stream::errors::CellError;
use edge_stream::errors::ConfigError;
use edge_stream::gpio::Edge;
use edge_stream::gpio::Level;
use edge_stream::gpio::OutputPin;
use edge_stream::gpio::Pull;
use edge_stream::gpio::TriggerInput;
use edge_stream::pipeline::StreamPipeline;
use edge_stream::pwm::PwmChannel;
use edge_stream::service::on_rising_edge;
use edge_stream::service::SharedResources;
use edge_stream::startup::initialize;
use edge_stream::startup::PWM_FREQUENCY_HZ;
use edge_stream::startup::PWM_RESOLUTION;
use edge_stream::timer::reload_value;
use edge_stream::timer::MasterMode;
use edge_stream::timer::RateTimer;
use edge_stream::timer::TimerConfig;
use edge_stream::timer::AUDIO_SAMPLE_RATE_HZ;
use edge_stream::timer::DEFAULT_SYSCLK_HZ;

#[test]
fn reload_value_for_audio_rate() {
    assert_eq!(reload_value(8_000_000, 44_100), 181);
}

#[test]
fn reload_value_for_even_divisor() {
    assert_eq!(reload_value(8_000_000, 8_000), 1000);
}

#[test]
fn rate_generator_rejects_zero_rate() {
    assert!(TimerConfig::rate_generator(RateTimer::Tim2, DEFAULT_SYSCLK_HZ, 0).is_none());
}

#[test]
fn rate_generator_emits_update_trigger() {
    let c = TimerConfig::rate_generator(RateTimer::Tim2, DEFAULT_SYSCLK_HZ, AUDIO_SAMPLE_RATE_HZ)
        .unwrap();
    assert_eq!(c.reload, 181);
    assert_eq!(c.master_mode, MasterMode::UpdateEvent);
    assert!(c.enabled);
    assert_eq!(c.timer, RateTimer::Tim2);
}

#[test]
fn buffer_has_declared_length() {
    let buffer = SampleBuffer::new();
    assert_eq!(buffer.len(), 64);
    assert_eq!(buffer.len(), DMA_BUFFER_LEN);
    assert_eq!(buffer.transfer_count(), 64);
}

#[test]
fn buffer_starts_zeroed_and_keeps_writes() {
    let mut buffer = SampleBuffer::new();
    assert_eq!(buffer.read(0), 0);
    assert_eq!(buffer.read(63), 0);
    buffer.write(3, 2048);
    assert_eq!(buffer.read(3), 2048);
    assert_eq!(buffer.read(2), 0);
    assert_eq!(buffer.len(), 64);
}

#[test]
fn dma_rejects_count_mismatch() {
    let buffer = SampleBuffer::new();
    let r = DmaConfig::for_buffer(&buffer, 63, TransferWidth::Bits32);
    assert_eq!(r, Err(ConfigError::TransferCountMismatch));
}

#[test]
fn dma_rejects_width_mismatch() {
    let buffer = SampleBuffer::new();
    let r = DmaConfig::for_buffer(&buffer, 64, TransferWidth::Bits16);
    assert_eq!(r, Err(ConfigError::WidthMismatch));
}

#[test]
fn dma_accepts_matching_configuration() {
    let buffer = SampleBuffer::new();
    let c = DmaConfig::for_buffer(&buffer, 64, TransferWidth::Bits32).unwrap();
    assert_eq!(c.transfer_count, 64);
    assert!(c.circular);
    assert_eq!(c.direction, TransferDirection::MemoryToPeripheral);
    assert_eq!(c.memory_width, TransferWidth::Bits32);
    assert_eq!(c.peripheral_width, TransferWidth::Bits32);
}

#[test]
fn assemble_accepts_valid_chain() {
    let buffer = SampleBuffer::new();
    let timer = TimerConfig::rate_generator(RateTimer::Tim2, DEFAULT_SYSCLK_HZ, AUDIO_SAMPLE_RATE_HZ)
        .unwrap();
    let dac = DacConfig::streaming(RateTimer::Tim2);
    let dma = DmaConfig::for_buffer(&buffer, 64, TransferWidth::Bits32).unwrap();
    let p = StreamPipeline::assemble(timer, dac, dma).unwrap();
    assert_eq!(p.timer, timer);
    assert_eq!(p.dac, dac);
    assert_eq!(p.dma, dma);
}

#[test]
fn assemble_rejects_wrong_trigger_binding() {
    let buffer = SampleBuffer::new();
    let timer = TimerConfig::rate_generator(RateTimer::Tim6, DEFAULT_SYSCLK_HZ, AUDIO_SAMPLE_RATE_HZ)
        .unwrap();
    let dac = DacConfig::streaming(RateTimer::Tim2);
    let dma = DmaConfig::for_buffer(&buffer, 64, TransferWidth::Bits32).unwrap();
    let r = StreamPipeline::assemble(timer, dac, dma);
    assert_eq!(r, Err(ConfigError::TriggerMismatch));
}

#[test]
fn assemble_rejects_timer_without_trigger_output() {
    let buffer = SampleBuffer::new();
    let mut timer = TimerConfig::rate_generator(
        RateTimer::Tim2,
        DEFAULT_SYSCLK_HZ,
        AUDIO_SAMPLE_RATE_HZ,
    )
    .unwrap();
    timer.master_mode = MasterMode::Disabled;
    let dac = DacConfig::streaming(RateTimer::Tim2);
    let dma = DmaConfig::for_buffer(&buffer, 64, TransferWidth::Bits32).unwrap();
    let r = StreamPipeline::assemble(timer, dac, dma);
    assert_eq!(r, Err(ConfigError::NoTriggerOutput));
}

#[test]
fn assemble_rejects_software_triggered_converter() {
    let buffer = SampleBuffer::new();
    let timer = TimerConfig::rate_generator(RateTimer::Tim2, DEFAULT_SYSCLK_HZ, AUDIO_SAMPLE_RATE_HZ)
        .unwrap();
    let mut dac = DacConfig::streaming(RateTimer::Tim2);
    dac.trigger_enabled = false;
    let dma = DmaConfig::for_buffer(&buffer, 64, TransferWidth::Bits32).unwrap();
    let r = StreamPipeline::assemble(timer, dac, dma);
    assert_eq!(r, Err(ConfigError::TriggerDisabled));
}

#[test]
fn assemble_rejects_missing_dma_request() {
    let buffer = SampleBuffer::new();
    let timer = TimerConfig::rate_generator(RateTimer::Tim2, DEFAULT_SYSCLK_HZ, AUDIO_SAMPLE_RATE_HZ)
        .unwrap();
    let mut dac = DacConfig::streaming(RateTimer::Tim2);
    dac.dma_request_enabled = false;
    let dma = DmaConfig::for_buffer(&buffer, 64, TransferWidth::Bits32).unwrap();
    let r = StreamPipeline::assemble(timer, dac, dma);
    assert_eq!(r, Err(ConfigError::DmaRequestDisabled));
}

#[test]
fn assemble_rejects_transfer_count_mismatch() {
    let buffer = SampleBuffer::new();
    let timer = TimerConfig::rate_generator(RateTimer::Tim2, DEFAULT_SYSCLK_HZ, AUDIO_SAMPLE_RATE_HZ)
        .unwrap();
    let dac = DacConfig::streaming(RateTimer::Tim2);
    let mut dma = DmaConfig::for_buffer(&buffer, 64, TransferWidth::Bits32).unwrap();
    dma.transfer_count = 32;
    let r = StreamPipeline::assemble(timer, dac, dma);
    assert_eq!(r, Err(ConfigError::TransferCountMismatch));
}

#[test]
fn assemble_rejects_width_disagreement() {
    let buffer = SampleBuffer::new();
    let timer = TimerConfig::rate_generator(RateTimer::Tim2, DEFAULT_SYSCLK_HZ, AUDIO_SAMPLE_RATE_HZ)
        .unwrap();
    let dac = DacConfig::streaming(RateTimer::Tim2);
    let mut dma = DmaConfig::for_buffer(&buffer, 64, TransferWidth::Bits32).unwrap();
    dma.peripheral_width = TransferWidth::Bits16;
    let r = StreamPipeline::assemble(timer, dac, dma);
    assert_eq!(r, Err(ConfigError::WidthMismatch));
}

#[test]
fn assemble_rejects_one_shot_channel() {
    let buffer = SampleBuffer::new();
    let timer = TimerConfig::rate_generator(RateTimer::Tim2, DEFAULT_SYSCLK_HZ, AUDIO_SAMPLE_RATE_HZ)
        .unwrap();
    let dac = DacConfig::streaming(RateTimer::Tim2);
    let mut dma = DmaConfig::for_buffer(&buffer, 64, TransferWidth::Bits32).unwrap();
    dma.circular = false;
    let r = StreamPipeline::assemble(timer, dac, dma);
    assert_eq!(r, Err(ConfigError::NotCircular));
}

#[test]
fn configure_builds_valid_pipeline() {
    let buffer = SampleBuffer::new();
    let p = StreamPipeline::configure(
        RateTimer::Tim2,
        DEFAULT_SYSCLK_HZ,
        AUDIO_SAMPLE_RATE_HZ,
        &buffer,
    )
    .unwrap();
    assert_eq!(p.timer.reload, 181);
    assert_eq!(p.dma.transfer_count, 64);
    assert_eq!(p.dac.trigger, DacTrigger::Tim2Trgo);
    assert!(p.dac.dma_request_enabled);
    assert!(p.dma.circular);
}

#[test]
fn configure_rejects_zero_sample_rate() {
    let buffer = SampleBuffer::new();
    let r = StreamPipeline::configure(RateTimer::Tim2, DEFAULT_SYSCLK_HZ, 0, &buffer);
    assert_eq!(r, Err(ConfigError::ZeroSampleRate));
}

#[test]
fn pwm_half_duty_is_exact_for_even_resolution() {
    let mut pwm = PwmChannel::new(9000, 50);
    let half = pwm.half_duty();
    assert_eq!(half, 4500);
    pwm.set_duty(half).unwrap();
    assert_eq!(pwm.get_duty(), 4500);
    let active = 2 * (pwm.get_duty() as u32);
    let period = pwm.get_max_duty() as u32;
    assert!(active <= period && period - active <= 1);
}

#[test]
fn pwm_half_duty_within_one_count_for_odd_resolution() {
    let mut pwm = PwmChannel::new(9001, 50);
    let half = pwm.half_duty();
    assert_eq!(half, 4500);
    pwm.set_duty(half).unwrap();
    let active = 2 * (pwm.get_duty() as u32);
    let period = pwm.get_max_duty() as u32;
    assert!(active <= period && period - active <= 1);
}

#[test]
fn pwm_rejects_duty_above_resolution() {
    let mut pwm = PwmChannel::new(9000, 50);
    let r = pwm.set_duty(9001);
    assert_eq!(r, Err(ConfigError::DutyOutOfRange));
    assert_eq!(pwm.get_duty(), 0);
}

#[test]
fn pwm_enable_keeps_settings() {
    let mut pwm = PwmChannel::new(9000, 50);
    pwm.set_duty(4500).unwrap();
    pwm.enable();
    assert!(pwm.is_enabled());
    assert_eq!(pwm.get_duty(), 4500);
    assert_eq!(pwm.get_max_duty(), 9000);
}

#[test]
fn cell_access_before_install_always_fails() {
    let cell: SharedCell<OutputPin> = SharedCell::new();
    assert!(!cell.installed());
    assert!(matches!(cell.try_borrow(), Err(CellError::NotInstalled)));
}

#[test]
fn cell_access_after_install_sees_handle() {
    let mut cell: SharedCell<OutputPin> = SharedCell::new();
    cell.install(OutputPin::new());
    assert!(cell.installed());
    let pin = cell.try_borrow().unwrap();
    assert_eq!(pin.level(), Level::Low);
}

#[test]
fn service_before_install_reports_fatal_error() {
    let mut resources = SharedResources::new();
    let r = on_rising_edge(&mut resources);
    assert_eq!(r, Err(CellError::NotInstalled));
    assert!(!resources.led.installed());
    assert!(!resources.button.installed());
}

#[test]
fn trigger_input_power_on_state() {
    let mut button = TriggerInput::new();
    assert!(!button.pending());
    assert_eq!(button.edge(), Edge::Rising);
    assert_eq!(button.pull(), Pull::Down);
    button.raise_edge();
    assert!(button.pending());
    button.clear_interrupt();
    assert!(!button.pending());
}

#[test]
fn output_pin_toggles_between_levels() {
    let mut pin = OutputPin::new();
    assert_eq!(pin.level(), Level::Low);
    pin.toggle();
    assert_eq!(pin.level(), Level::High);
    pin.toggle();
    assert_eq!(pin.level(), Level::Low);
}

#[test]
fn power_on_then_two_clean_edges() {
    let mut resources = SharedResources::new();
    let _arm = resources.install_all(OutputPin::new(), TriggerInput::new());

    assert_eq!(resources.led.try_borrow().unwrap().level(), Level::Low);

    resources.button.borrow_mut().raise_edge();
    on_rising_edge(&mut resources).unwrap();
    assert_eq!(resources.led.try_borrow().unwrap().level(), Level::High);
    assert!(!resources.button.try_borrow().unwrap().pending());

    resources.button.borrow_mut().raise_edge();
    on_rising_edge(&mut resources).unwrap();
    assert_eq!(resources.led.try_borrow().unwrap().level(), Level::Low);
    assert!(!resources.button.try_borrow().unwrap().pending());
}

#[test]
fn bounced_edges_toggle_once_per_recorded_edge() {
    let mut resources = SharedResources::new();
    let _arm = resources.install_all(OutputPin::new(), TriggerInput::new());
    let mut i: usize = 0;
    while i < 5 {
        resources.button.borrow_mut().raise_edge();
        on_rising_edge(&mut resources).unwrap();
        i += 1;
    }
    // Five recorded edges: initial level flipped an odd number of times.
    assert_eq!(resources.led.try_borrow().unwrap().level(), Level::High);
    assert!(!resources.button.try_borrow().unwrap().pending());
}

#[test]
fn initialize_decides_full_startup() {
    let init = initialize(OutputPin::new(), TriggerInput::new());
    assert!(init.resources.led.installed());
    assert!(init.resources.button.installed());
    assert_eq!(init.pipeline.timer.reload, 181);
    assert_eq!(init.pipeline.timer.timer, RateTimer::Tim2);
    assert_eq!(init.pipeline.dma.transfer_count, 64);
    assert_eq!(init.pwm.get_max_duty(), PWM_RESOLUTION);
    assert_eq!(init.pwm.get_duty(), PWM_RESOLUTION / 2);
    assert!(init.pwm.is_enabled());
    assert_eq!(init.pwm.get_frequency(), PWM_FREQUENCY_HZ);
    assert_eq!(init.buffer.len(), 64);
}
