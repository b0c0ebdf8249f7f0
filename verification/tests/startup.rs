use roguelike_core::components::common::{Color, Position, Renderable};
use roguelike_core::direction::Direction;
use roguelike_core::movement::{Layout, RenderTransform, WorldPosition};
use roguelike_core::startup::{
    bootstrap, setup, Config, ConfigError, Population, DEFAULT_ANIMATION_PERIOD,
    DEFAULT_FACING_PERIOD, DEFAULT_FRAME_COUNT, DEFAULT_GLYPH, DEFAULT_PLAYER_X,
    DEFAULT_PLAYER_Y, DEFAULT_STATIC_COUNT,
    DEFAULT_STATIC_ROW, DEFAULT_STATIC_SPACING, MAX_COLUMN,
};
use roguelike_core::timer::TimerMode;
use roguelike_core::world::{ComponentMask, ComponentSet, EntityId, World};

const NONE: ComponentMask = ComponentMask {
    position: false,
    world_position: false,
    transform: false,
    renderable: false,
    facing: false,
    animation: false,
    player: false,
};

#[test]
fn default_constants() {
    assert_eq!(DEFAULT_FACING_PERIOD, 1_500_000);
    assert_eq!(DEFAULT_ANIMATION_PERIOD, 100_000);
    assert_eq!(DEFAULT_FRAME_COUNT, 3);
    assert_eq!(DEFAULT_PLAYER_X, 320);
    assert_eq!(DEFAULT_PLAYER_Y, 200);
    assert_eq!(DEFAULT_STATIC_COUNT, 10);
    assert_eq!(DEFAULT_STATIC_SPACING, 7);
    assert_eq!(DEFAULT_STATIC_ROW, 20);
    assert_eq!(DEFAULT_GLYPH, '@');
    assert_eq!(MAX_COLUMN, 127);
}

#[test]
fn default_configuration() {
    let config = Config::default();
    assert_eq!(config.layout, Layout::default());
    assert_eq!(config.population, Population::default());
    assert_eq!(config.check(), Ok(()));
    let p = config.population;
    assert_eq!(p.facing_period, 1_500_000);
    assert_eq!(p.animation_period, 100_000);
    assert_eq!(p.frame_count, 3);
    assert_eq!(p.player_start, WorldPosition { x: 320, y: 200 });
    assert_eq!(p.player_renderable, Renderable { glyph: '@', fg: Color::Yellow, bg: Color::Black });
    assert_eq!(p.static_count, 10);
    assert_eq!(p.static_spacing, 7);
    assert_eq!(p.static_row, 20);
    assert_eq!(p.static_renderable, Renderable { glyph: '@', fg: Color::Red, bg: Color::Black });
}

#[test]
fn bootstrap_with_default_configuration() {
    let world = bootstrap(&Config::default()).expect("a valid configuration");
    assert_eq!(world.len(), 11);
    assert_eq!(world.layout(), Layout::default());

    // exactly one player, at the start position, facing down
    assert_eq!(world.iterate(ComponentMask { player: true, ..NONE }), vec![EntityId(0)]);
    let player = world.get(EntityId(0)).expect("the player");
    assert!(player.player);
    assert_eq!(player.position, None);
    assert_eq!(player.world_position, Some(WorldPosition { x: 320, y: 200 }));
    assert_eq!(player.transform, Some(RenderTransform { x: 320, y: 200 }));
    assert_eq!(
        player.renderable,
        Some(Renderable { glyph: '@', fg: Color::Yellow, bg: Color::Black })
    );
    let facing = player.facing.expect("the facing of the player");
    assert_eq!(facing.direction(), Direction::Down);
    assert_eq!(facing.timer().duration(), 1_500_000);
    assert_eq!(facing.timer().elapsed(), 0);
    assert_eq!(facing.timer().mode(), TimerMode::Repeating);
    assert!(!facing.timer().just_fired());
    let animation = player.animation.expect("the animation of the player");
    assert_eq!(animation.frame_index(), 0);
    assert_eq!(animation.frame_count(), 3);
    assert_eq!(animation.timer().duration(), 100_000);
    assert_eq!(animation.timer().elapsed(), 0);
    assert_eq!(animation.timer().mode(), TimerMode::Repeating);

    // ten static entities in row 20, at columns 0, 7, ..., 63
    let statics = world.iterate(ComponentMask { position: true, ..NONE });
    assert_eq!(statics, (1..=10).map(EntityId).collect::<Vec<_>>());
    let columns: Vec<i8> = statics
        .iter()
        .map(|id| world.get(*id).expect("a static entity").position.expect("its position").x)
        .collect();
    assert_eq!(columns, vec![0, 7, 14, 21, 28, 35, 42, 49, 56, 63]);
    for (i, id) in statics.iter().enumerate() {
        let e = world.get(*id).expect("a static entity");
        assert_eq!(
            *e,
            ComponentSet {
                position: Some(Position { x: 7 * i as i8, y: 20 }),
                renderable: Some(Renderable { glyph: '@', fg: Color::Red, bg: Color::Black }),
                ..ComponentSet::new()
            }
        );
        assert_eq!(e.facing, None);
        assert_eq!(e.animation, None);
        assert!(!e.player);
    }
    assert_eq!(world.iterate(ComponentMask { facing: true, ..NONE }), vec![EntityId(0)]);
    assert_eq!(world.iterate(ComponentMask { animation: true, ..NONE }), vec![EntityId(0)]);
}

fn with_population(change: fn(&mut Population)) -> Config {
    let mut config = Config::default();
    change(&mut config.population);
    config
}

#[test]
fn zero_grid_cols_is_refused() {
    let layout = Layout { grid_cols: 0, ..Layout::default() };
    let config = Config { layout, ..Config::default() };
    assert_eq!(config.check(), Err(ConfigError::ZeroGridCols));
    assert_eq!(bootstrap(&config), Err(ConfigError::ZeroGridCols));
}

#[test]
fn zero_grid_rows_is_refused() {
    let layout = Layout { grid_rows: 0, ..Layout::default() };
    let config = Config { layout, ..Config::default() };
    assert_eq!(config.check(), Err(ConfigError::ZeroGridRows));
    assert_eq!(bootstrap(&config), Err(ConfigError::ZeroGridRows));
}

#[test]
fn zero_facing_period_is_refused() {
    let config = with_population(|p| p.facing_period = 0);
    assert_eq!(config.check(), Err(ConfigError::ZeroFacingPeriod));
    assert_eq!(bootstrap(&config), Err(ConfigError::ZeroFacingPeriod));
}

#[test]
fn zero_animation_period_is_refused() {
    let config = with_population(|p| p.animation_period = 0);
    assert_eq!(config.check(), Err(ConfigError::ZeroAnimationPeriod));
    assert_eq!(bootstrap(&config), Err(ConfigError::ZeroAnimationPeriod));
}

#[test]
fn zero_frame_count_is_refused() {
    let config = with_population(|p| p.frame_count = 0);
    assert_eq!(config.check(), Err(ConfigError::ZeroFrameCount));
    assert_eq!(bootstrap(&config), Err(ConfigError::ZeroFrameCount));
}

#[test]
fn static_entities_must_fit_the_grid_columns() {
    // 19 entities end in column 18 * 7 = 126, 20 would end in column 133
    let fits = with_population(|p| p.static_count = 19);
    let world = bootstrap(&fits).expect("a valid configuration");
    assert_eq!(world.len(), 20);
    assert_eq!(
        world.get(EntityId(19)).expect("the last entity").position,
        Some(Position { x: 126, y: 20 })
    );
    let too_many = with_population(|p| p.static_count = 20);
    assert_eq!(too_many.check(), Err(ConfigError::StaticColumnOutOfRange));
    assert_eq!(bootstrap(&too_many), Err(ConfigError::StaticColumnOutOfRange));

    let last_column = with_population(|p| {
        p.static_count = 2;
        p.static_spacing = 127;
    });
    let world = bootstrap(&last_column).expect("a valid configuration");
    assert_eq!(
        world.get(EntityId(2)).expect("the last entity").position,
        Some(Position { x: 127, y: 20 })
    );
    let beyond = with_population(|p| {
        p.static_count = 2;
        p.static_spacing = 128;
    });
    assert_eq!(bootstrap(&beyond), Err(ConfigError::StaticColumnOutOfRange));
    let widest = with_population(|p| {
        p.static_count = 255;
        p.static_spacing = 255;
    });
    assert_eq!(bootstrap(&widest), Err(ConfigError::StaticColumnOutOfRange));
}

#[test]
fn faults_are_reported_in_order() {
    let config = Config {
        layout: Layout { grid_cols: 0, grid_rows: 0, ..Layout::default() },
        population: Population {
            facing_period: 0,
            animation_period: 0,
            frame_count: 0,
            static_count: 255,
            static_spacing: 255,
            ..Population::default()
        },
    };
    assert_eq!(config.check(), Err(ConfigError::ZeroGridCols));
    assert_eq!(config.population.check(), Err(ConfigError::ZeroFacingPeriod));
    let next = Population { facing_period: 1, ..config.population };
    assert_eq!(next.check(), Err(ConfigError::ZeroAnimationPeriod));
    let next = Population { animation_period: 1, ..next };
    assert_eq!(next.check(), Err(ConfigError::ZeroFrameCount));
    let next = Population { frame_count: 1, ..next };
    assert_eq!(next.check(), Err(ConfigError::StaticColumnOutOfRange));
    let next = Population { static_spacing: 0, ..next };
    assert_eq!(next.check(), Ok(()));
}

#[test]
fn population_without_static_entities() {
    let config = with_population(|p| {
        p.static_count = 0;
        p.static_spacing = 255;
    });
    let world = bootstrap(&config).expect("a valid configuration");
    assert_eq!(world.len(), 1);
    assert!(world.get(EntityId(0)).expect("the player").player);
}

#[test]
fn static_entities_with_no_spacing_share_a_cell() {
    let config = with_population(|p| {
        p.static_count = 255;
        p.static_spacing = 0;
        p.static_row = -128;
    });
    let world = bootstrap(&config).expect("a valid configuration");
    assert_eq!(world.len(), 256);
    assert_eq!(
        world.get(EntityId(255)).expect("the last entity").position,
        Some(Position { x: 0, y: -128 })
    );
}

#[test]
fn setup_appends_to_the_world() {
    let layout = Layout { scale_x: 2, scale_y: 2, offset_x: -1, offset_y: 1, ..Layout::default() };
    let mut world = World::new(layout).expect("a valid layout");
    let first = ComponentSet { position: Some(Position { x: 1, y: 1 }), ..ComponentSet::new() };
    world.spawn(first).expect("a complete set");
    assert_eq!(setup(&mut world, &Population::default()), Ok(()));
    assert_eq!(world.len(), 12);
    assert_eq!(world.get(EntityId(0)), Some(&first));
    let player = world.get(EntityId(1)).expect("the player");
    assert!(player.player);
    assert_eq!(player.world_position, Some(WorldPosition { x: 320, y: 200 }));
    // drawn with the layout of the world
    assert_eq!(player.transform, Some(RenderTransform { x: 639, y: 401 }));
    assert_eq!(
        world.get(EntityId(11)).expect("the last entity").position,
        Some(Position { x: 63, y: 20 })
    );
}

#[test]
fn setup_with_a_fault_leaves_the_world_alone() {
    let mut world = World::new(Layout::default()).expect("a valid layout");
    let first = ComponentSet { position: Some(Position { x: 1, y: 1 }), ..ComponentSet::new() };
    world.spawn(first).expect("a complete set");
    let faulty = Population { frame_count: 0, ..Population::default() };
    assert_eq!(setup(&mut world, &faulty), Err(ConfigError::ZeroFrameCount));
    assert_eq!(world.len(), 1);
    assert_eq!(world.get(EntityId(0)), Some(&first));
}

#[test]
fn player_walks_the_facing_cycle() {
    let mut world = bootstrap(&Config::default()).expect("a valid configuration");
    // fourteen frames of a tenth of a second: fourteen steps down
    for frame in 1..=14 {
        world.advance(100_000);
        let player = world.get(EntityId(0)).expect("the player");
        assert_eq!(player.facing.expect("its facing").direction(), Direction::Down);
        assert_eq!(player.world_position, Some(WorldPosition { x: 320, y: 200 - 8 * frame }));
        assert_eq!(player.animation.expect("its animation").frame_index(), frame as u64 % 3);
    }
    // on the fifteenth both timers fire: the player turns left, then steps left
    world.advance(100_000);
    let player = world.get(EntityId(0)).expect("the player");
    assert_eq!(player.facing.expect("its facing").direction(), Direction::Left);
    assert_eq!(player.world_position, Some(WorldPosition { x: 312, y: 88 }));
    assert_eq!(player.transform, Some(RenderTransform { x: 312, y: 88 }));
    assert_eq!(player.animation.expect("its animation").frame_index(), 3);
    // fifteen steps each way: after a whole cycle of the facing the player
    // is back where it started
    for _ in 15..60 {
        world.advance(100_000);
    }
    let player = world.get(EntityId(0)).expect("the player");
    assert_eq!(player.facing.expect("its facing").direction(), Direction::Down);
    assert_eq!(player.world_position, Some(WorldPosition { x: 320, y: 200 }));
    assert_eq!(player.transform, Some(RenderTransform { x: 320, y: 200 }));
    // the static entities have not changed
    assert_eq!(
        world.get(EntityId(4)),
        Some(&ComponentSet {
            position: Some(Position { x: 21, y: 20 }),
            renderable: Some(Renderable { glyph: '@', fg: Color::Red, bg: Color::Black }),
            ..ComponentSet::new()
        })
    );
}
