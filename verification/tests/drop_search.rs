use libllm_tui::drop_search::{DropProbe, DropSearch};

fn run(counts: &[usize], budget: usize, max_drop: usize) -> (usize, usize) {
    let mut s = DropSearch::new(budget, max_drop);
    let mut asked = 0;
    loop {
        match s.probe() {
            DropProbe::Count(k) => {
                asked += 1;
                s.observe(counts[k]);
            }
            DropProbe::Found(k) => return (k, asked),
        }
    }
}

#[test]
fn finds_smallest_drop_that_fits() {
    let counts: Vec<usize> = (0..=8).map(|k| 100 - 10 * k).collect();
    let (k, asked) = run(&counts, 60, 8);
    assert_eq!(k, 4);
    assert!(asked <= 5);
}

#[test]
fn zero_when_whole_prompt_fits() {
    let counts = vec![10; 9];
    assert_eq!(run(&counts, 100, 8), (0, 1));
}

#[test]
fn max_drop_when_nothing_fits() {
    let counts = vec![500, 400, 300, 200];
    assert_eq!(run(&counts, 60, 3).0, 3);
}

#[test]
fn only_last_fits() {
    let counts = vec![500, 400, 300, 50];
    assert_eq!(run(&counts, 60, 3).0, 3);
}

#[test]
fn nothing_to_drop() {
    let counts = vec![500];
    assert_eq!(run(&counts, 60, 0), (0, 1));
}
