use pitter_os::{greet, kill_process, Kernel, ShellOutput};

#[test]
fn greet_welcomes_by_name() {
    assert_eq!(greet("Ana"), "Pitter OS (Ubuntu) - Bem-vindo, Ana!");
    assert_eq!(greet(""), "Pitter OS (Ubuntu) - Bem-vindo, !");
    assert_eq!(greet("João da Silva"), "Pitter OS (Ubuntu) - Bem-vindo, João da Silva!");
    assert_eq!(greet("{}"), "Pitter OS (Ubuntu) - Bem-vindo, {}!");
}

#[test]
fn kill_command_confirms_a_success() {
    let kernel = Kernel::new();
    let done = Ok(ShellOutput { success: true, stdout: Vec::new(), stderr: Vec::new() });
    assert_eq!(
        kill_process(1234, &kernel, done),
        Ok(String::from("Processo 1234 terminado com sucesso"))
    );
    let done = Ok(ShellOutput { success: true, stdout: b"noise".to_vec(), stderr: b"more".to_vec() });
    assert_eq!(
        kill_process(0, &kernel, done),
        Ok(String::from("Processo 0 terminado com sucesso"))
    );
}

#[test]
fn kill_command_hands_on_the_failure() {
    let kernel = Kernel::new();
    let failed = Ok(ShellOutput {
        success: false,
        stdout: Vec::new(),
        stderr: b"kill: (99) - Operation not permitted\n".to_vec(),
    });
    assert_eq!(
        kill_process(99, &kernel, failed),
        Err(String::from(
            "Erro ao matar processo Linux 99: kill: (99) - Operation not permitted\n"
        ))
    );
    assert_eq!(
        kill_process(99, &kernel, Err(String::from("denied"))),
        Err(String::from("Erro ao matar processo Linux 99: Falha ao executar comando: denied"))
    );
}
